use user_seed::{cert_path, descriptor_from, resolve, ConfigError, ConnectionEnv, EnvVar};

fn full_env() -> ConnectionEnv {
    ConnectionEnv {
        database_host: Some("db.internal".to_string()),
        database_port: Some("3307".to_string()),
        database_username: Some("app".to_string()),
        database_password: Some("SECRET-REDACTED".to_string()),
        database_name: Some("shop".to_string()),
        ca_cert_name: None,
        cert_dir: None,
    }
}

#[test]
fn resolve_without_tls_copies_every_field() {
    let d = resolve(full_env()).unwrap();
    assert_eq!(d.host, "db.internal");
    assert_eq!(d.port, 3307);
    assert_eq!(d.username, "app");
    assert_eq!(d.password, "SECRET-REDACTED");
    assert_eq!(d.database, "shop");
    assert_eq!(d.ca_cert_path, None);
}

#[test]
fn resolve_joins_cert_dir_and_name() {
    let mut env = full_env();
    env.ca_cert_name = Some("ca.pem".to_string());
    env.cert_dir = Some("/certs".to_string());
    let d = resolve(env).unwrap();
    assert_eq!(d.ca_cert_path, Some("/certs/ca.pem".to_string()));
}

#[test]
fn cert_path_joins_with_separator() {
    let r = cert_path(&Some("ca.pem".to_string()), &Some("/certs".to_string()));
    assert_eq!(r, Ok(Some("/certs/ca.pem".to_string())));
    let r = cert_path(&Some("ca.pem".to_string()), &Some("/certs/".to_string()));
    assert_eq!(r, Ok(Some("/certs/ca.pem".to_string())));
}

#[test]
fn cert_path_absent_without_name() {
    assert_eq!(cert_path(&None, &None), Ok(None));
    assert_eq!(cert_path(&None, &Some("/certs".to_string())), Ok(None));
}

#[test]
fn cert_name_without_dir_is_fatal() {
    let mut env = full_env();
    env.ca_cert_name = Some("ca.pem".to_string());
    assert_eq!(resolve(env), Err(ConfigError::Missing(EnvVar::CertDir)));
}

#[test]
fn cert_name_without_dir_wins_over_missing_host() {
    let mut env = full_env();
    env.database_host = None;
    env.ca_cert_name = Some("ca.pem".to_string());
    assert_eq!(resolve(env), Err(ConfigError::Missing(EnvVar::CertDir)));
}

#[test]
fn missing_host_is_fatal() {
    let mut env = full_env();
    env.database_host = None;
    assert_eq!(resolve(env), Err(ConfigError::Missing(EnvVar::DatabaseHost)));
}

#[test]
fn missing_required_variables_are_reported_in_order() {
    let mut env = full_env();
    env.database_port = None;
    env.database_name = None;
    assert_eq!(resolve(env), Err(ConfigError::Missing(EnvVar::DatabasePort)));

    let mut env = full_env();
    env.database_username = None;
    assert_eq!(resolve(env), Err(ConfigError::Missing(EnvVar::DatabaseUsername)));

    let mut env = full_env();
    env.database_password = None;
    assert_eq!(resolve(env), Err(ConfigError::Missing(EnvVar::DatabasePassword)));

    let mut env = full_env();
    env.database_name = None;
    assert_eq!(resolve(env), Err(ConfigError::Missing(EnvVar::DatabaseName)));
}

#[test]
fn non_numeric_port_is_fatal() {
    for text in ["abc", "", "+", "-1", " 3306", "3306 ", "33_06", "65536", "0"] {
        let mut env = full_env();
        env.database_port = Some(text.to_string());
        assert_eq!(resolve(env), Err(ConfigError::InvalidPort), "port text {:?}", text);
    }
}

#[test]
fn port_numerals_that_parse() {
    for (text, value) in [("+5432", 5432u16), ("0080", 80), ("65535", 65535), ("1", 1)] {
        let mut env = full_env();
        env.database_port = Some(text.to_string());
        assert_eq!(resolve(env).unwrap().port, value);
    }
}

#[test]
fn bad_port_wins_over_later_missing_variables() {
    let mut env = full_env();
    env.database_port = Some("x".to_string());
    env.database_username = None;
    assert_eq!(resolve(env), Err(ConfigError::InvalidPort));
}

#[test]
fn descriptor_from_keeps_given_cert_path() {
    let d = descriptor_from(full_env(), Some("/etc/ca.pem".to_string())).unwrap();
    assert_eq!(d.ca_cert_path, Some("/etc/ca.pem".to_string()));
    assert_eq!(d.port, 3307);
}

#[test]
fn env_var_names() {
    assert_eq!(EnvVar::DatabaseHost.name(), "DATABASE_HOST");
    assert_eq!(EnvVar::DatabasePort.name(), "DATABASE_PORT");
    assert_eq!(EnvVar::DatabaseUsername.name(), "DATABASE_USERNAME");
    assert_eq!(EnvVar::DatabasePassword.name(), "DATABASE_PASSWORD");
    assert_eq!(EnvVar::DatabaseName.name(), "DATABASE_NAME");
    assert_eq!(EnvVar::CaCertName.name(), "CA_CERT_NAME");
    assert_eq!(EnvVar::CertDir.name(), "CERT_DIR");
}
