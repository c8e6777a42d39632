use user_seed::{seed_users, Phase, SeedWorkflow, Step, INSERT_USER_SQL, SEED_COUNT, SELECT_USERS_SQL};

/// Drives a workflow to its end, answering the i-th insert with `outcomes[i]`,
/// and returns every step handed out.
fn drive(outcomes: &[bool]) -> (Vec<Step>, usize) {
    let mut w = SeedWorkflow::new();
    assert_eq!(w.phase(), Phase::NotStarted);
    let mut steps = vec![];
    let mut step = w.start();
    loop {
        steps.push(step);
        step = match step {
            Step::Insert(i) => {
                assert_eq!(w.phase(), Phase::Seeding);
                w.record_insert(outcomes[i])
            }
            Step::FetchAll => {
                assert_eq!(w.phase(), Phase::Verifying);
                w.record_read()
            }
            Step::Close => break,
        };
    }
    assert_eq!(w.phase(), Phase::Done);
    (steps, w.inserted_count())
}

#[test]
fn seed_list_is_fixed() {
    let seeds = seed_users();
    assert_eq!(seeds.len(), SEED_COUNT);
    assert_eq!(
        seeds,
        vec![
            ("太郎", "taro@example.com"),
            ("花子", "hanako@example.com"),
            ("次郎", "jiro@example.com"),
            ("美咲", "misaki@example.com"),
            ("健太", "kenta@example.com"),
        ]
    );
}

#[test]
fn all_inserts_succeed() {
    let (steps, count) = drive(&[true; 5]);
    assert_eq!(
        steps,
        vec![
            Step::Insert(0),
            Step::Insert(1),
            Step::Insert(2),
            Step::Insert(3),
            Step::Insert(4),
            Step::FetchAll,
            Step::Close,
        ]
    );
    assert_eq!(count, 5);
}

#[test]
fn third_insert_fails_and_the_rest_go_on() {
    let (steps, count) = drive(&[true, true, false, true, true]);
    assert_eq!(
        steps,
        vec![
            Step::Insert(0),
            Step::Insert(1),
            Step::Insert(2),
            Step::Insert(3),
            Step::Insert(4),
            Step::FetchAll,
            Step::Close,
        ]
    );
    assert_eq!(count, 4);
}

#[test]
fn every_insert_fails_and_the_read_still_runs() {
    let (steps, count) = drive(&[false; 5]);
    assert_eq!(steps[5], Step::FetchAll);
    assert_eq!(steps[6], Step::Close);
    assert_eq!(count, 0);
}

#[test]
fn count_before_any_insert_is_zero() {
    let mut w = SeedWorkflow::new();
    assert_eq!(w.inserted_count(), 0);
    assert_eq!(w.start(), Step::Insert(0));
    assert_eq!(w.record_insert(false), Step::Insert(1));
    assert_eq!(w.record_insert(true), Step::Insert(2));
    assert_eq!(w.inserted_count(), 1);
}

#[test]
fn statements_let_the_server_stamp_and_read_everything() {
    assert_eq!(
        INSERT_USER_SQL,
        "INSERT INTO users (name, email, created_at, updated_at) VALUES (?, ?, NOW(), NOW())"
    );
    assert_eq!(SELECT_USERS_SQL, "SELECT id, name, email, created_at, updated_at FROM users");
}
