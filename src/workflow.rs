//! The seed-then-read workflow as a state machine. The caller performs each
//! step that it hands out (an insert, the read, closing the pool) and reports
//! back how it went; the machine says what comes next.

use vstd::prelude::*;

verus! {

/// How many records the seed list holds.
pub const SEED_COUNT: usize = 5;

/// The statement that inserts one seed record; the server sets both
/// timestamps to its current time.
pub const INSERT_USER_SQL: &'static str =
    "INSERT INTO users (name, email, created_at, updated_at) VALUES (?, ?, NOW(), NOW())";

/// The statement that reads back every record, unfiltered and unordered.
pub const SELECT_USERS_SQL: &'static str = "SELECT id, name, email, created_at, updated_at FROM users";

/// The (name, email) pairs that the insert step writes, in order.
pub open spec fn seed_list() -> Seq<(Seq<char>, Seq<char>)> {
    seq![
        ("太郎"@, "taro@example.com"@),
        ("花子"@, "hanako@example.com"@),
        ("次郎"@, "jiro@example.com"@),
        ("美咲"@, "misaki@example.com"@),
        ("健太"@, "kenta@example.com"@),
    ]
}

/// The seed list: (name, email) pairs, in the order in which they are
/// inserted.
pub fn seed_users() -> (r: Vec<(&'static str, &'static str)>)
    ensures
        r@.len() == seed_list().len(),
        forall|i: int| 0 <= i < r@.len() ==> (#[trigger] r@[i]).0@ == seed_list()[i].0 && r@[i].1@
            == seed_list()[i].1,
{
    let mut r: Vec<(&'static str, &'static str)> = Vec::new();
    r.push(("太郎", "taro@example.com"));
    r.push(("花子", "hanako@example.com"));
    r.push(("次郎", "jiro@example.com"));
    r.push(("美咲", "misaki@example.com"));
    r.push(("健太", "kenta@example.com"));
    r
}

/// Where the workflow stands. It only ever moves forward, one phase at a time.
#[derive(Clone, Copy, Debug, PartialEq, Eq, Structural)]
pub enum Phase {
    NotStarted,
    Seeding,
    Verifying,
    Done,
}

/// The next thing for the caller to do.
#[derive(Clone, Copy, Debug, PartialEq, Eq, Structural)]
pub enum Step {
    /// Insert the seed record at this index of the seed list.
    Insert(usize),
    /// Read back all records.
    FetchAll,
    /// Release the pool; nothing follows.
    Close,
}

pub struct WorkflowView {
    pub phase: Phase,
    /// For each seed record inserted so far, in order, whether it was committed.
    pub outcomes: Seq<bool>,
}

/// The step that follows once `done` seed records have been tried.
pub open spec fn step_after(done: nat) -> Step {
    if done < SEED_COUNT {
        Step::Insert(done as usize)
    } else {
        Step::FetchAll
    }
}

pub open spec fn initial() -> WorkflowView {
    WorkflowView { phase: Phase::NotStarted, outcomes: seq![] }
}

/// Starting: the first insert is owed.
pub open spec fn started(s: WorkflowView) -> (WorkflowView, Step) {
    (WorkflowView { phase: Phase::Seeding, outcomes: s.outcomes }, step_after(s.outcomes.len()))
}

/// An insert came back, committed or not. Either way the next record is tried,
/// and after the last one the read is owed.
pub open spec fn after_insert(s: WorkflowView, committed: bool) -> (WorkflowView, Step) {
    let o = s.outcomes.push(committed);
    (
        WorkflowView {
            phase: if o.len() < SEED_COUNT {
                Phase::Seeding
            } else {
                Phase::Verifying
            },
            outcomes: o,
        },
        step_after(o.len()),
    )
}

/// The read came back, with rows or with an error: the pool is to be released.
pub open spec fn after_read(s: WorkflowView) -> (WorkflowView, Step) {
    (WorkflowView { phase: Phase::Done, outcomes: s.outcomes }, Step::Close)
}

/// How many of the outcomes are commits.
pub open spec fn count_committed(o: Seq<bool>) -> nat
    decreases o.len(),
{
    if o.len() == 0 {
        0
    } else {
        count_committed(o.drop_last()) + if o.last() {
            1nat
        } else {
            0nat
        }
    }
}

/// The state reached, and the steps handed out, when the inserts report
/// `outcomes` one after another from state `s`.
pub open spec fn run_inserts(s: WorkflowView, outcomes: Seq<bool>) -> (WorkflowView, Seq<Step>)
    decreases outcomes.len(),
{
    if outcomes.len() == 0 {
        (s, seq![])
    } else {
        let (s1, first) = after_insert(s, outcomes[0]);
        let (s2, rest) = run_inserts(s1, outcomes.drop_first());
        (s2, seq![first] + rest)
    }
}

proof fn lemma_run_inserts_from(s: WorkflowView, rest: Seq<bool>)
    requires
        s.phase == Phase::Seeding,
        s.outcomes.len() + rest.len() == SEED_COUNT,
        rest.len() > 0,
    ensures
        run_inserts(s, rest).0 == (WorkflowView { phase: Phase::Verifying, outcomes: s.outcomes + rest }),
        run_inserts(s, rest).1.len() == rest.len(),
        forall|j: int|
            0 <= j < rest.len() ==> #[trigger] run_inserts(s, rest).1[j] == step_after(
                (s.outcomes.len() + j + 1) as nat,
            ),
    decreases rest.len(),
{
    let (s1, first) = after_insert(s, rest[0]);
    if rest.len() == 1 {
        assert(s.outcomes + rest =~= s.outcomes.push(rest[0]));
        assert(rest.drop_first() =~= Seq::<bool>::empty());
    } else {
        lemma_run_inserts_from(s1, rest.drop_first());
        assert(s1.outcomes + rest.drop_first() =~= s.outcomes + rest);
        let steps = run_inserts(s, rest).1;
        let tail = run_inserts(s1, rest.drop_first()).1;
        assert(steps =~= seq![first] + tail);
        assert forall|j: int| 0 <= j < rest.len() implies #[trigger] steps[j] == step_after(
            (s.outcomes.len() + j + 1) as nat,
        ) by {
            if j > 0 {
                assert(steps[j] == tail[j - 1]);
            }
        }
    }
}

/// Whatever each insert returns, a started workflow tries every seed record
/// once, in list order, and then reads: a failed insert neither stops the
/// later inserts nor the read. Afterwards the outcomes are exactly those
/// reported, so the committed records are those whose insert succeeded.
pub proof fn lemma_failures_do_not_stop_the_run(outcomes: Seq<bool>)
    requires
        outcomes.len() == SEED_COUNT,
    ensures
        started(initial()).1 == Step::Insert(0),
        run_inserts(started(initial()).0, outcomes).1 == seq![
            Step::Insert(1),
            Step::Insert(2),
            Step::Insert(3),
            Step::Insert(4),
            Step::FetchAll,
        ],
        run_inserts(started(initial()).0, outcomes).0 == (WorkflowView {
            phase: Phase::Verifying,
            outcomes,
        }),
{
    let s0 = started(initial()).0;
    lemma_run_inserts_from(s0, outcomes);
    assert(s0.outcomes + outcomes =~= outcomes);
    let steps = run_inserts(s0, outcomes).1;
    assert(steps[0] == step_after(1));
    assert(steps[1] == step_after(2));
    assert(steps[2] == step_after(3));
    assert(steps[3] == step_after(4));
    assert(steps[4] == step_after(5));
    assert(steps =~= seq![
        Step::Insert(1),
        Step::Insert(2),
        Step::Insert(3),
        Step::Insert(4),
        Step::FetchAll,
    ]);
}

/// The seed-then-read workflow.
pub struct SeedWorkflow {
    phase: Phase,
    outcomes: Vec<bool>,
}

impl View for SeedWorkflow {
    type V = WorkflowView;

    closed spec fn view(&self) -> WorkflowView {
        WorkflowView { phase: self.phase, outcomes: self.outcomes@ }
    }
}

impl SeedWorkflow {
    /// The outcomes match the phase: none before the start, fewer than the
    /// whole list while seeding, one per seed record afterwards.
    pub open spec fn wf(&self) -> bool {
        match self@.phase {
            Phase::NotStarted => self@.outcomes.len() == 0,
            Phase::Seeding => self@.outcomes.len() < SEED_COUNT,
            _ => self@.outcomes.len() == SEED_COUNT,
        }
    }

    pub fn new() -> (r: SeedWorkflow)
        ensures
            r@ == initial(),
            r.wf(),
    {
        SeedWorkflow { phase: Phase::NotStarted, outcomes: Vec::new() }
    }

    pub fn phase(&self) -> (r: Phase)
        ensures
            r == self@.phase,
    {
        self.phase
    }

    /// Moves to seeding and hands out the first insert.
    pub fn start(&mut self) -> (r: Step)
        requires
            old(self).wf(),
            old(self)@.phase == Phase::NotStarted,
        ensures
            final(self).wf(),
            (final(self)@, r) == started(old(self)@),
            r == Step::Insert(0),
    {
        self.phase = Phase::Seeding;
        Step::Insert(0)
    }

    /// Records whether the insert just handed out was committed, and hands out
    /// the next insert, or the read after the last one. A failed insert is
    /// recorded and stops nothing.
    pub fn record_insert(&mut self, committed: bool) -> (r: Step)
        requires
            old(self).wf(),
            old(self)@.phase == Phase::Seeding,
        ensures
            final(self).wf(),
            (final(self)@, r) == after_insert(old(self)@, committed),
    {
        self.outcomes.push(committed);
        if self.outcomes.len() < SEED_COUNT {
            Step::Insert(self.outcomes.len())
        } else {
            self.phase = Phase::Verifying;
            Step::FetchAll
        }
    }

    /// Records that the read is over, whatever it returned, and hands out the
    /// release of the pool.
    pub fn record_read(&mut self) -> (r: Step)
        requires
            old(self).wf(),
            old(self)@.phase == Phase::Verifying,
        ensures
            final(self).wf(),
            (final(self)@, r) == after_read(old(self)@),
    {
        self.phase = Phase::Done;
        Step::Close
    }

    /// How many seed records have been committed so far.
    pub fn inserted_count(&self) -> (r: usize)
        requires
            self.wf(),
        ensures
            r == count_committed(self@.outcomes),
    {
        let mut n: usize = 0;
        let mut i: usize = 0;
        while i < self.outcomes.len()
            invariant
                i <= self.outcomes@.len(),
                self.outcomes@.len() <= SEED_COUNT,
                n == count_committed(self.outcomes@.subrange(0, i as int)),
                n <= i,
            decreases self.outcomes@.len() - i,
        {
            proof {
                let s = self.outcomes@.subrange(0, i as int + 1);
                assert(s.drop_last() =~= self.outcomes@.subrange(0, i as int));
            }
            if self.outcomes[i] {
                n = n + 1;
            }
            i = i + 1;
        }
        proof {
            assert(self.outcomes@.subrange(0, i as int) =~= self.outcomes@);
        }
        n
    }
}

} // verus!
