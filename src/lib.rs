//! Bootstrap of a MySQL connection from environment-provided settings, and
//! the seed-then-read workflow that runs over the resulting pool.
//!
//! The library decides; the caller performs. `config` turns the values of the
//! environment variables into a [`ConnectionDescriptor`], `options` turns a
//! descriptor into the driver's connect options, and `workflow` says which
//! database round trip comes next.

pub mod config;

pub use config::{
    cert_path, descriptor_from, resolve, ConfigError, ConnectionDescriptor,
    ConnectionEnv, EnvVar,
};

pub mod options;

pub use options::connect_options;

pub mod workflow;

pub use workflow::{
    seed_users, Phase, SeedWorkflow, Step, INSERT_USER_SQL, SEED_COUNT, SELECT_USERS_SQL,
};
