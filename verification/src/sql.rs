use ssql::prelude::tiberius::{AuthMethod, Config, EncryptionLevel};
use vstd::prelude::*;

verus! {

/// `tiberius::Config`, the description of a connection to a SQL Server. Its
/// inside is not visible to the proofs: they speak of it through
/// [`config_fields`].
#[verifier::external_type_specification]
#[verifier::external_body]
pub struct ExConfig(Config);

/// How much of a connection is encrypted; the levels of
/// `tiberius::EncryptionLevel`.
#[derive(Debug, Clone, Copy, PartialEq, Eq)]
pub enum Encryption {
    /// Only the login is encrypted.
    Off,
    /// Everything is encrypted where the server can.
    On,
    /// Nothing is encrypted.
    NotSupported,
    /// Everything is encrypted, or the connection fails.
    Required,
}

/// How the server's certificate is judged.
pub enum Trust {
    /// Against the system's trust store; tiberius calls it `Default`.
    SystemStore,
    /// Not at all: any certificate is accepted.
    TrustAll,
    /// Against a certificate authority read from a file as well.
    CaCertificate,
}

/// How the client proves who it is.
pub enum Login {
    /// No method was chosen; tiberius calls it `None`.
    Unset,
    /// An account of the SQL Server itself.
    SqlServer { user: Seq<char>, password: Seq<char> },
    /// Any other method.
    Other,
}

/// What a `tiberius::Config` holds.
pub struct ConfigModel {
    pub host: Option<Seq<char>>,
    pub port: Option<u16>,
    pub database: Option<Seq<char>>,
    pub instance_name: Option<Seq<char>>,
    pub application_name: Option<Seq<char>>,
    pub encryption: Encryption,
    pub trust: Trust,
    pub login: Login,
    pub readonly: bool,
}

/// The fields of a `tiberius::Config`.
pub uninterp spec fn config_fields(config: Config) -> ConfigModel;

/// The port that a connection with these fields goes to: the port that was
/// set; where none was, the port of the SQL Browser if an instance is named,
/// and else the default port of SQL Server.
pub open spec fn port_in_use(fields: ConfigModel) -> u16 {
    match fields.port {
        Some(port) => port,
        None => if fields.instance_name is Some {
            1434
        } else {
            1433
        },
    }
}

/// Calls `Config::new`. Nothing is set in the new value but the encryption
/// level, of which the contract says nothing: which level it starts at
/// depends on how tiberius was built.
#[verifier::external_body]
pub(crate) fn new_config() -> (config: Config)
    ensures
        config_fields(config).host is None,
        config_fields(config).port is None,
        config_fields(config).database is None,
        config_fields(config).instance_name is None,
        config_fields(config).application_name is None,
        config_fields(config).trust is SystemStore,
        config_fields(config).login is Unset,
        !config_fields(config).readonly,
{
    Config::new()
}

/// Calls `Config::host`, which stores the host and touches nothing else.
#[verifier::external_body]
pub(crate) fn set_host(config: &mut Config, host: &str)
    ensures
        config_fields(*final(config)) == (ConfigModel {
            host: Some(host@),
            ..config_fields(*old(config))
        }),
{
    config.host(host);
}

/// Calls `Config::database`, which stores the database's name and touches
/// nothing else.
#[verifier::external_body]
pub(crate) fn set_database(config: &mut Config, database: &str)
    ensures
        config_fields(*final(config)) == (ConfigModel {
            database: Some(database@),
            ..config_fields(*old(config))
        }),
{
    config.database(database);
}

/// Calls `Config::application_name`, which stores the name and touches
/// nothing else.
#[verifier::external_body]
pub(crate) fn set_application_name(config: &mut Config, name: &str)
    ensures
        config_fields(*final(config)) == (ConfigModel {
            application_name: Some(name@),
            ..config_fields(*old(config))
        }),
{
    config.application_name(name);
}

/// Calls `Config::authentication` with what `AuthMethod::sql_server` makes
/// of a user and a password: the pair is stored as the login, and nothing
/// else is touched.
#[verifier::external_body]
pub(crate) fn set_sql_login(config: &mut Config, user: &str, password: &str)
    ensures
        config_fields(*final(config)) == (ConfigModel {
            login: Login::SqlServer { user: user@, password: password@ },
            ..config_fields(*old(config))
        }),
{
    config.authentication(AuthMethod::sql_server(user, password));
}

/// Calls `Config::encryption` with the level of the same name, which stores
/// it and touches nothing else.
#[verifier::external_body]
pub(crate) fn set_encryption(config: &mut Config, level: Encryption)
    ensures
        config_fields(*final(config)) == (ConfigModel {
            encryption: level,
            ..config_fields(*old(config))
        }),
{
    config.encryption(
        match level {
            Encryption::Off => EncryptionLevel::Off,
            Encryption::On => EncryptionLevel::On,
            Encryption::NotSupported => EncryptionLevel::NotSupported,
            Encryption::Required => EncryptionLevel::Required,
        },
    );
}

/// Calls `Config::trust_cert`, after which any certificate is accepted. It
/// panics where a certificate authority was set before, so that is ruled out.
#[verifier::external_body]
pub(crate) fn trust_any_certificate(config: &mut Config)
    requires
        !(config_fields(*old(config)).trust is CaCertificate),
    ensures
        config_fields(*final(config)) == (ConfigModel {
            trust: Trust::TrustAll,
            ..config_fields(*old(config))
        }),
{
    config.trust_cert();
}

} // verus!
