//! The driver's connect options for a resolved descriptor.

use vstd::prelude::*;
use sqlx::mysql::{MySqlConnectOptions, MySqlSslMode};
use crate::config::ConnectionDescriptor;

verus! {

#[verifier::external_type_specification]
#[verifier::external_body]
pub struct ExMySqlConnectOptions(MySqlConnectOptions);

#[verifier::external_type_specification]
pub struct ExMySqlSslMode(MySqlSslMode);

/// The host that `MySqlConnectOptions::get_host` reports.
pub uninterp spec fn host_setting(o: MySqlConnectOptions) -> Seq<char>;

/// The port that `MySqlConnectOptions::get_port` reports.
pub uninterp spec fn port_setting(o: MySqlConnectOptions) -> u16;

/// The user that `MySqlConnectOptions::get_username` reports.
pub uninterp spec fn username_setting(o: MySqlConnectOptions) -> Seq<char>;

/// The database that `MySqlConnectOptions::get_database` reports.
pub uninterp spec fn database_setting(o: MySqlConnectOptions) -> Option<Seq<char>>;

/// The mode that `MySqlConnectOptions::get_ssl_mode` reports.
pub uninterp spec fn ssl_mode_setting(o: MySqlConnectOptions) -> MySqlSslMode;

/// Relies on `MySqlConnectOptions::new`: host "localhost", port 3306, user
/// "root", no database, and the `Preferred` TLS mode.
pub assume_specification[ MySqlConnectOptions::new ]() -> (r: MySqlConnectOptions)
    ensures
        host_setting(r) == "localhost"@,
        port_setting(r) == 3306,
        username_setting(r) == "root"@,
        database_setting(r) is None,
        ssl_mode_setting(r) == MySqlSslMode::Preferred,
;

/// Relies on `MySqlConnectOptions::host`: sets the host and nothing else.
pub assume_specification[ MySqlConnectOptions::host ](o: MySqlConnectOptions, host: &str) -> (r:
    MySqlConnectOptions)
    ensures
        host_setting(r) == host@,
        port_setting(r) == port_setting(o),
        username_setting(r) == username_setting(o),
        database_setting(r) == database_setting(o),
        ssl_mode_setting(r) == ssl_mode_setting(o),
;

/// Relies on `MySqlConnectOptions::port`: sets the port and nothing else.
pub assume_specification[ MySqlConnectOptions::port ](o: MySqlConnectOptions, port: u16) -> (r:
    MySqlConnectOptions)
    ensures
        host_setting(r) == host_setting(o),
        port_setting(r) == port,
        username_setting(r) == username_setting(o),
        database_setting(r) == database_setting(o),
        ssl_mode_setting(r) == ssl_mode_setting(o),
;

/// Relies on `MySqlConnectOptions::username`: sets the user and nothing else.
pub assume_specification[ MySqlConnectOptions::username ](
    o: MySqlConnectOptions,
    username: &str,
) -> (r: MySqlConnectOptions)
    ensures
        host_setting(r) == host_setting(o),
        port_setting(r) == port_setting(o),
        username_setting(r) == username@,
        database_setting(r) == database_setting(o),
        ssl_mode_setting(r) == ssl_mode_setting(o),
;

/// Relies on `MySqlConnectOptions::password`: it touches none of the settings
/// above (the password has no getter).
pub assume_specification[ MySqlConnectOptions::password ](
    o: MySqlConnectOptions,
    password: &str,
) -> (r: MySqlConnectOptions)
    ensures
        host_setting(r) == host_setting(o),
        port_setting(r) == port_setting(o),
        username_setting(r) == username_setting(o),
        database_setting(r) == database_setting(o),
        ssl_mode_setting(r) == ssl_mode_setting(o),
;

/// Relies on `MySqlConnectOptions::database`: sets the database and nothing
/// else.
pub assume_specification[ MySqlConnectOptions::database ](
    o: MySqlConnectOptions,
    database: &str,
) -> (r: MySqlConnectOptions)
    ensures
        host_setting(r) == host_setting(o),
        port_setting(r) == port_setting(o),
        username_setting(r) == username_setting(o),
        database_setting(r) == Some(database@),
        ssl_mode_setting(r) == ssl_mode_setting(o),
;

/// Relies on `MySqlConnectOptions::ssl_mode`: sets the TLS mode and nothing
/// else.
pub assume_specification[ MySqlConnectOptions::ssl_mode ](
    o: MySqlConnectOptions,
    mode: MySqlSslMode,
) -> (r: MySqlConnectOptions)
    ensures
        host_setting(r) == host_setting(o),
        port_setting(r) == port_setting(o),
        username_setting(r) == username_setting(o),
        database_setting(r) == database_setting(o),
        ssl_mode_setting(r) == mode,
;

/// Relies on `MySqlConnectOptions::ssl_ca`: records the CA certificate file and
/// touches none of the settings above.
#[verifier::external_body]
fn with_ssl_ca(o: MySqlConnectOptions, path: &str) -> (r: MySqlConnectOptions)
    ensures
        host_setting(r) == host_setting(o),
        port_setting(r) == port_setting(o),
        username_setting(r) == username_setting(o),
        database_setting(r) == database_setting(o),
        ssl_mode_setting(r) == ssl_mode_setting(o),
{
    o.ssl_ca(path)
}

/// The connect options for `d`: its host, port, credentials and database; and,
/// where it names a CA certificate, TLS that verifies the server's identity
/// against it. Without a certificate the driver's default TLS mode stays.
pub fn connect_options(d: &ConnectionDescriptor) -> (r: MySqlConnectOptions)
    ensures
        host_setting(r) == d.host@,
        port_setting(r) == d.port,
        username_setting(r) == d.username@,
        database_setting(r) == Some(d.database@),
        d.ca_cert_path is Some ==> ssl_mode_setting(r) == MySqlSslMode::VerifyIdentity,
        d.ca_cert_path is None ==> ssl_mode_setting(r) == MySqlSslMode::Preferred,
{
    let options = MySqlConnectOptions::new().host(d.host.as_str()).port(d.port).username(
        d.username.as_str(),
    ).password(d.password.as_str()).database(d.database.as_str());
    match &d.ca_cert_path {
        Some(path) => with_ssl_ca(options.ssl_mode(MySqlSslMode::VerifyIdentity), path.as_str()),
        None => options,
    }
}

} // verus!
