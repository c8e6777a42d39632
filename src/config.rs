//! Resolution of the connection settings from the values of the process's
//! environment variables.

use vstd::prelude::*;

verus! {

/// An environment variable that the resolver reads.
#[derive(Clone, Copy, Debug, PartialEq, Eq, Structural)]
pub enum EnvVar {
    DatabaseHost,
    DatabasePort,
    DatabaseUsername,
    DatabasePassword,
    DatabaseName,
    CaCertName,
    CertDir,
}

impl EnvVar {
    pub open spec fn spec_name(self) -> Seq<char> {
        match self {
            EnvVar::DatabaseHost => "DATABASE_HOST"@,
            EnvVar::DatabasePort => "DATABASE_PORT"@,
            EnvVar::DatabaseUsername => "DATABASE_USERNAME"@,
            EnvVar::DatabasePassword => "DATABASE_PASSWORD"@,
            EnvVar::DatabaseName => "DATABASE_NAME"@,
            EnvVar::CaCertName => "CA_CERT_NAME"@,
            EnvVar::CertDir => "CERT_DIR"@,
        }
    }

    /// The variable's name in the environment.
    pub fn name(&self) -> (r: &'static str)
        ensures
            r@ == self.spec_name(),
    {
        match self {
            EnvVar::DatabaseHost => "DATABASE_HOST",
            EnvVar::DatabasePort => "DATABASE_PORT",
            EnvVar::DatabaseUsername => "DATABASE_USERNAME",
            EnvVar::DatabasePassword => "DATABASE_PASSWORD",
            EnvVar::DatabaseName => "DATABASE_NAME",
            EnvVar::CaCertName => "CA_CERT_NAME",
            EnvVar::CertDir => "CERT_DIR",
        }
    }
}

/// Why the connection settings could not be resolved. Each of these is fatal:
/// the process cannot go on without a descriptor.
#[derive(Clone, Copy, Debug, PartialEq, Eq, Structural)]
pub enum ConfigError {
    /// A variable that is required (in the case of `CERT_DIR`: because
    /// `CA_CERT_NAME` is set) is absent.
    Missing(EnvVar),
    /// `DATABASE_PORT` is not a port number from 1 to 65535.
    InvalidPort,
}

/// The values of the environment variables, each `None` where the variable is
/// absent (or not valid Unicode).
#[derive(Clone, Debug)]
pub struct ConnectionEnv {
    pub database_host: Option<String>,
    pub database_port: Option<String>,
    pub database_username: Option<String>,
    pub database_password: Option<String>,
    pub database_name: Option<String>,
    pub ca_cert_name: Option<String>,
    pub cert_dir: Option<String>,
}

/// What is needed to open a pool: where the server is, who connects, to which
/// database, and the CA certificate that turns on identity-verifying TLS.
#[derive(Clone, Debug, PartialEq, Eq)]
pub struct ConnectionDescriptor {
    pub host: String,
    pub port: u16,
    pub username: String,
    pub password: String,
    pub database: String,
    pub ca_cert_path: Option<String>,
}

/// The mathematical content of a [`ConnectionDescriptor`].
pub struct DescriptorView {
    pub host: Seq<char>,
    pub port: u16,
    pub username: Seq<char>,
    pub password: Seq<char>,
    pub database: Seq<char>,
    pub ca_cert_path: Option<Seq<char>>,
}

pub open spec fn text(o: Option<String>) -> Option<Seq<char>> {
    match o {
        Some(s) => Some(s@),
        None => None,
    }
}

impl View for ConnectionDescriptor {
    type V = DescriptorView;

    open spec fn view(&self) -> DescriptorView {
        DescriptorView {
            host: self.host@,
            port: self.port,
            username: self.username@,
            password: self.password@,
            database: self.database@,
            ca_cert_path: text(self.ca_cert_path),
        }
    }
}

impl ConnectionDescriptor {
    /// A descriptor names a real port: 0 is not one.
    pub open spec fn wf(&self) -> bool {
        self.port >= 1
    }
}

pub open spec fn result_view(r: Result<ConnectionDescriptor, ConfigError>) -> Result<
    DescriptorView,
    ConfigError,
> {
    match r {
        Ok(d) => Ok(d@),
        Err(e) => Err(e),
    }
}

pub open spec fn is_ascii_digit(c: char) -> bool {
    '0' <= c && c <= '9'
}

/// The number that a string of decimal digits writes.
pub open spec fn digits_value(s: Seq<char>) -> int
    decreases s.len(),
{
    if s.len() == 0 {
        0
    } else {
        10 * digits_value(s.drop_last()) + ((s.last() as u32) - ('0' as u32))
    }
}

/// What remains of a numeral once its optional leading `+` is taken off.
pub open spec fn unsigned_digits(s: Seq<char>) -> Seq<char> {
    if s.len() > 0 && s[0] == '+' {
        s.drop_first()
    } else {
        s
    }
}

/// The value of `s` read as a `u16`: an optional `+` and then one or more
/// decimal digits, nothing else, and at most 65535.
pub open spec fn u16_numeral(s: Seq<char>) -> Option<u16> {
    let d = unsigned_digits(s);
    if d.len() > 0 && (forall|i: int| 0 <= i < d.len() ==> is_ascii_digit(#[trigger] d[i]))
        && digits_value(d) <= u16::MAX {
        Some(digits_value(d) as u16)
    } else {
        None
    }
}

/// The port that `s` names, if it names one: a `u16` numeral other than 0.
pub open spec fn port_number(s: Seq<char>) -> Option<u16> {
    match u16_numeral(s) {
        Some(p) => if p >= 1 {
            Some(p)
        } else {
            None
        },
        None => None,
    }
}

/// The path of the file `name` in the directory `dir`, joined as the
/// platform's paths are.
pub uninterp spec fn joined_path(dir: Seq<char>, name: Seq<char>) -> Seq<char>;

/// The certificate path that the two certificate variables give: none when no
/// certificate name is set, and an error when a name is set without a
/// directory.
pub open spec fn cert_path_spec(name: Option<Seq<char>>, dir: Option<Seq<char>>) -> Result<
    Option<Seq<char>>,
    ConfigError,
> {
    match name {
        None => Ok(None),
        Some(n) => match dir {
            None => Err(ConfigError::Missing(EnvVar::CertDir)),
            Some(d) => Ok(Some(joined_path(d, n))),
        },
    }
}

/// The descriptor made of the five required variables and a certificate path
/// already resolved; the first variable that is absent, in the order host,
/// port, username, password, database name, is the error.
pub open spec fn descriptor_spec(env: ConnectionEnv, ca_cert_path: Option<Seq<char>>) -> Result<
    DescriptorView,
    ConfigError,
> {
    if env.database_host is None {
        Err(ConfigError::Missing(EnvVar::DatabaseHost))
    } else if env.database_port is None {
        Err(ConfigError::Missing(EnvVar::DatabasePort))
    } else if port_number(env.database_port->0@) is None {
        Err(ConfigError::InvalidPort)
    } else if env.database_username is None {
        Err(ConfigError::Missing(EnvVar::DatabaseUsername))
    } else if env.database_password is None {
        Err(ConfigError::Missing(EnvVar::DatabasePassword))
    } else if env.database_name is None {
        Err(ConfigError::Missing(EnvVar::DatabaseName))
    } else {
        Ok(
            DescriptorView {
                host: env.database_host->0@,
                port: port_number(env.database_port->0@)->0,
                username: env.database_username->0@,
                password: env.database_password->0@,
                database: env.database_name->0@,
                ca_cert_path,
            },
        )
    }
}

/// The outcome of resolving the whole environment: the certificate variables
/// are looked at first, then the required ones.
pub open spec fn resolution(env: ConnectionEnv) -> Result<DescriptorView, ConfigError> {
    match cert_path_spec(text(env.ca_cert_name), text(env.cert_dir)) {
        Err(e) => Err(e),
        Ok(p) => descriptor_spec(env, p),
    }
}

/// Relies on `u16`'s `FromStr` (`str::parse`): an optional `+`, then decimal
/// digits only, with a value that fits; anything else is an error.
#[verifier::external_body]
fn parse_u16(s: &str) -> (r: Option<u16>)
    ensures
        r == u16_numeral(s@),
{
    s.parse::<u16>().ok()
}

/// Relies on `Path::join`: the platform's joining of a directory and a file
/// name. Both arguments are UTF-8, so the joined path is too.
#[verifier::external_body]
fn join_path(dir: &str, name: &str) -> (r: String)
    ensures
        r@ == joined_path(dir@, name@),
{
    std::path::Path::new(dir).join(name).to_string_lossy().into_owned()
}

/// The CA certificate path from `CA_CERT_NAME` and `CERT_DIR`: `Ok(None)` when
/// no name is set, the directory joined with the name when both are, and an
/// error when the name is set without the directory.
pub fn cert_path(ca_cert_name: &Option<String>, cert_dir: &Option<String>) -> (r: Result<
    Option<String>,
    ConfigError,
>)
    ensures
        match r {
            Ok(p) => cert_path_spec(text(*ca_cert_name), text(*cert_dir)) == Ok::<
                Option<Seq<char>>,
                ConfigError,
            >(text(p)),
            Err(e) => cert_path_spec(text(*ca_cert_name), text(*cert_dir)) == Err::<
                Option<Seq<char>>,
                ConfigError,
            >(e),
        },
{
    match ca_cert_name {
        None => Ok(None),
        Some(name) => match cert_dir {
            None => Err(ConfigError::Missing(EnvVar::CertDir)),
            Some(dir) => Ok(Some(join_path(dir.as_str(), name.as_str()))),
        },
    }
}

/// Builds the descriptor from the five required variables and a certificate
/// path already resolved.
pub fn descriptor_from(env: ConnectionEnv, ca_cert_path: Option<String>) -> (r: Result<
    ConnectionDescriptor,
    ConfigError,
>)
    ensures
        result_view(r) == descriptor_spec(env, text(ca_cert_path)),
        r matches Ok(d) ==> d.wf(),
{
    let host = match env.database_host {
        Some(h) => h,
        None => return Err(ConfigError::Missing(EnvVar::DatabaseHost)),
    };
    let port_text = match env.database_port {
        Some(p) => p,
        None => return Err(ConfigError::Missing(EnvVar::DatabasePort)),
    };
    let port: u16 = match parse_u16(port_text.as_str()) {
        Some(p) => p,
        None => return Err(ConfigError::InvalidPort),
    };
    if port == 0 {
        return Err(ConfigError::InvalidPort);
    }
    let username = match env.database_username {
        Some(u) => u,
        None => return Err(ConfigError::Missing(EnvVar::DatabaseUsername)),
    };
    let password = match env.database_password {
        Some(p) => p,
        None => return Err(ConfigError::Missing(EnvVar::DatabasePassword)),
    };
    let database = match env.database_name {
        Some(d) => d,
        None => return Err(ConfigError::Missing(EnvVar::DatabaseName)),
    };
    Ok(ConnectionDescriptor { host, port, username, password, database, ca_cert_path })
}

/// Resolves the connection settings: first the certificate path, then the
/// five required variables. Nothing here touches the network.
pub fn resolve(env: ConnectionEnv) -> (r: Result<ConnectionDescriptor, ConfigError>)
    ensures
        result_view(r) == resolution(env),
        r matches Ok(d) ==> d.wf(),
{
    let cert = match cert_path(&env.ca_cert_name, &env.cert_dir) {
        Ok(p) => p,
        Err(e) => return Err(e),
    };
    descriptor_from(env, cert)
}

/// With the five required variables set, a valid port, and neither
/// certificate variable set, resolution succeeds without TLS and each field of
/// the descriptor is the value of its variable.
pub proof fn lemma_resolve_without_tls(env: ConnectionEnv)
    requires
        env.database_host is Some,
        env.database_port is Some,
        port_number(env.database_port->0@) is Some,
        env.database_username is Some,
        env.database_password is Some,
        env.database_name is Some,
        env.ca_cert_name is None,
        env.cert_dir is None,
    ensures
        resolution(env) == Ok::<DescriptorView, ConfigError>(
            DescriptorView {
                host: env.database_host->0@,
                port: port_number(env.database_port->0@)->0,
                username: env.database_username->0@,
                password: env.database_password->0@,
                database: env.database_name->0@,
                ca_cert_path: None,
            },
        ),
{
}

/// A certificate name without a certificate directory is fatal, whatever the
/// other variables hold.
pub proof fn lemma_cert_name_needs_dir(env: ConnectionEnv)
    requires
        env.ca_cert_name is Some,
        env.cert_dir is None,
    ensures
        resolution(env) == Err::<DescriptorView, ConfigError>(ConfigError::Missing(EnvVar::CertDir)),
{
}

/// Without a host there is no descriptor, so no connection is ever attempted;
/// where the certificate variables are in order, the missing host is the
/// error reported.
pub proof fn lemma_missing_host_is_fatal(env: ConnectionEnv)
    requires
        env.database_host is None,
    ensures
        resolution(env) is Err,
        !(env.ca_cert_name is Some && env.cert_dir is None) ==> resolution(env) == Err::<
            DescriptorView,
            ConfigError,
        >(ConfigError::Missing(EnvVar::DatabaseHost)),
{
}

} // verus!
