use crate::error::{ErrorModel, SettingsError};
use crate::json::{as_text, describe, member, parse_json};
use crate::mail::email_fields;
use crate::recipients::{recipient_fields, recipient_of, recipients_in, split_on_comma, texts};
use crate::schema::{first_unreadable, read_blob, read_document, required_at, resolve};
use crate::sql::{
    config_fields, new_config, set_application_name, set_database, set_encryption, set_host,
    set_sql_login, trust_any_certificate, port_in_use, ConfigModel, Encryption, Login, Trust,
};
use ssql::prelude::tiberius::Config;
use vstd::prelude::*;
use vstd::string::StringExecFns;

verus! {

/// The application's configuration, as delivered in the settings blob.
/// Every field is plain text, taken over unchanged.
#[derive(Debug, Clone, PartialEq, Eq)]
pub struct Settings {
    pub database_server: String,
    pub database_name: String,
    pub database_username: String,
    pub database_password: String,
    pub log_webhook_uri: String,
    pub sendgrid_api_key: String,
    pub email_from_name: String,
    pub email_from_address: String,
    pub email_to_addresses: String,
}

/// Mathematical model of [`Settings`]: the nine texts.
pub struct SettingsModel {
    pub database_server: Seq<char>,
    pub database_name: Seq<char>,
    pub database_username: Seq<char>,
    pub database_password: Seq<char>,
    pub log_webhook_uri: Seq<char>,
    pub sendgrid_api_key: Seq<char>,
    pub email_from_name: Seq<char>,
    pub email_from_address: Seq<char>,
    pub email_to_addresses: Seq<char>,
}

impl View for Settings {
    type V = SettingsModel;

    open spec fn view(&self) -> SettingsModel {
        SettingsModel {
            database_server: self.database_server@,
            database_name: self.database_name@,
            database_username: self.database_username@,
            database_password: self.database_password@,
            log_webhook_uri: self.log_webhook_uri@,
            sendgrid_api_key: self.sendgrid_api_key@,
            email_from_name: self.email_from_name@,
            email_from_address: self.email_from_address@,
            email_to_addresses: self.email_to_addresses@,
        }
    }
}

/// The model of an outcome: the view of the settings or of the error.
pub open spec fn outcome_model(outcome: Result<Settings, SettingsError>) -> Result<
    SettingsModel,
    ErrorModel,
> {
    match outcome {
        Ok(settings) => Ok(settings@),
        Err(error) => Err(error@),
    }
}

/// Name of the environment variable that carries the settings blob.
pub const SECRET_VARIABLE: &'static str = "SecretBlob";

/// The name under which the application presents itself to the database.
pub const APPLICATION_NAME: &'static str = "Login Checker";

/// The connection that the settings describe: their server, with no port
/// and no instance named, so that the default port is in use; their database
/// and account, under the application's name, without encryption beyond the
/// login and with any certificate accepted.
pub open spec fn sql_settings_of(settings: SettingsModel) -> ConfigModel {
    ConfigModel {
        host: Some(settings.database_server),
        port: None,
        database: Some(settings.database_name),
        instance_name: None,
        application_name: Some(APPLICATION_NAME@),
        encryption: Encryption::Off,
        trust: Trust::TrustAll,
        login: Login::SqlServer {
            user: settings.database_username,
            password: settings.database_password,
        },
        readonly: false,
    }
}

/// Whatever the settings hold, the connection they describe goes to port
/// 1433: no port is set and no instance is named.
pub proof fn lemma_default_port_in_use(settings: SettingsModel)
    ensures
        sql_settings_of(settings).port is None,
        sql_settings_of(settings).instance_name is None,
        port_in_use(sql_settings_of(settings)) == 1433,
{
}

/// Reads the text under a required key.
fn required_text<'a>(doc: &'a serde_json::Value, key: &str) -> (outcome: Result<
    &'a str,
    SettingsError,
>)
    ensures
        match outcome {
            Ok(text) => required_at(*doc, key@) == Ok::<Seq<char>, ErrorModel>(text@),
            Err(error) => required_at(*doc, key@) == Err::<Seq<char>, ErrorModel>(error@),
        },
{
    match member(doc, key) {
        None => {
            let detail = String::from_str("missing field `").concat(key).concat("`");
            Err(SettingsError::ParseError { detail })
        },
        Some(value) => match as_text(value) {
            Some(text) => Ok(text),
            None => {
                let detail = String::from_str("invalid type for field `").concat(key).concat(
                    "`, expected a string",
                );
                Err(SettingsError::ParseError { detail })
            },
        },
    }
}

impl Settings {
    /// Resolves the settings from the outcome of looking up the variable
    /// [`SECRET_VARIABLE`]: `Ok` with its content, or `Err` with the
    /// lookup's own complaint.
    pub fn get_settings(lookup: Result<String, String>) -> (outcome: Result<
        Settings,
        SettingsError,
    >)
        ensures
            outcome_model(outcome) == resolve(
                match lookup {
                    Ok(blob) => Ok(blob@),
                    Err(cause) => Err(cause@),
                },
            ),
    {
        match lookup {
            Err(cause) => Err(SettingsError::EnvironmentError { detail: cause }),
            Ok(blob) => Settings::from_json(blob.as_str()),
        }
    }

    /// Reads the settings from the text of a blob.
    ///
    /// The whole text is parsed into one document first, and the nine keys
    /// are looked up in it afterwards. So, other than with a reader that
    /// serde derives for a record:
    /// - a key that the object gives twice is no error: the last of its
    ///   values counts;
    /// - a member under a key outside the schema is parsed too, and the blob
    ///   is refused where such a member cannot be parsed as a JSON value (a
    ///   number out of range, or nesting deeper than 128 levels);
    /// - only an object is accepted, never an array of the nine texts.
    pub fn from_json(blob: &str) -> (outcome: Result<Settings, SettingsError>)
        ensures
            outcome_model(outcome) == read_blob(blob@),
    {
        match parse_json(blob) {
            Err(error) => Err(SettingsError::ParseError { detail: describe(&error) }),
            Ok(doc) => Settings::from_document(&doc),
        }
    }

    /// Reads the settings from a parsed document. Members under other keys
    /// are ignored.
    ///
    /// The keys are tried in the order of the schema, and the first one
    /// without a text decides the error, be it missing or of another type.
    /// The causes of these two errors are worded here, not by the parser,
    /// which has accepted the text: they name the key and carry no line or
    /// column, and that of a member of another type does not say which type
    /// was found.
    pub fn from_document(doc: &serde_json::Value) -> (outcome: Result<Settings, SettingsError>)
        ensures
            outcome_model(outcome) == read_document(*doc),
    {
        reveal_with_fuel(first_unreadable, 10);
        let database_server = match required_text(doc, "DatabaseServer") {
            Ok(text) => String::from_str(text),
            Err(error) => return Err(error),
        };
        let database_name = match required_text(doc, "DatabaseName") {
            Ok(text) => String::from_str(text),
            Err(error) => return Err(error),
        };
        let database_username = match required_text(doc, "DatabaseUsername") {
            Ok(text) => String::from_str(text),
            Err(error) => return Err(error),
        };
        let database_password = match required_text(doc, "DatabasePassword") {
            Ok(text) => String::from_str(text),
            Err(error) => return Err(error),
        };
        let log_webhook_uri = match required_text(doc, "LogWebhookUri") {
            Ok(text) => String::from_str(text),
            Err(error) => return Err(error),
        };
        let sendgrid_api_key = match required_text(doc, "SendgridApiKey") {
            Ok(text) => String::from_str(text),
            Err(error) => return Err(error),
        };
        let email_from_name = match required_text(doc, "EmailFromName") {
            Ok(text) => String::from_str(text),
            Err(error) => return Err(error),
        };
        let email_from_address = match required_text(doc, "EmailFromAddress") {
            Ok(text) => String::from_str(text),
            Err(error) => return Err(error),
        };
        let email_to_addresses = match required_text(doc, "EmailToAddresses") {
            Ok(text) => String::from_str(text),
            Err(error) => return Err(error),
        };
        Ok(
            Settings {
                database_server,
                database_name,
                database_username,
                database_password,
                log_webhook_uri,
                sendgrid_api_key,
                email_from_name,
                email_from_address,
                email_to_addresses,
            },
        )
    }

    /// Describes the connection to the database. The texts are taken over as
    /// they are, empty ones too.
    pub fn get_sql_settings(&self) -> (config: Config)
        ensures
            config_fields(config) == sql_settings_of(self@),
            port_in_use(config_fields(config)) == 1433,
    {
        let mut sql_settings = new_config();
        set_host(&mut sql_settings, self.database_server.as_str());
        set_application_name(&mut sql_settings, APPLICATION_NAME);
        set_database(&mut sql_settings, self.database_name.as_str());
        set_sql_login(
            &mut sql_settings,
            self.database_username.as_str(),
            self.database_password.as_str(),
        );
        set_encryption(&mut sql_settings, Encryption::Off);
        trust_any_certificate(&mut sql_settings);
        sql_settings
    }

    /// Lists the recipients of mail: one for each segment that the commas of
    /// `email_to_addresses` delimit, in the order of the text. No address is
    /// trimmed or checked, and an empty segment gives a recipient too.
    pub fn get_email_destinations(&self) -> (emails: Vec<sendgrid::v3::Email<'_>>)
        ensures
            recipient_fields(emails@) == recipients_in(self.email_to_addresses@),
    {
        let parts = split_on_comma(self.email_to_addresses.as_str());
        let mut emails: Vec<sendgrid::v3::Email<'_>> = Vec::new();
        let mut i: usize = 0;
        while i < parts.len()
            invariant
                i <= parts.len(),
                emails.len() == i,
                forall|j: int|
                    0 <= j < i ==> email_fields(#[trigger] emails[j]) == recipient_of(parts[j]@),
            decreases parts.len() - i,
        {
            emails.push(sendgrid::v3::Email::new(parts[i]));
            i = i + 1;
        }
        assert forall|j: int| 0 <= j < emails.len() implies recipient_fields(emails@)[j]
            == recipients_in(self.email_to_addresses@)[j] by {
            assert(texts(parts@)[j] == parts[j]@);
        }
        assert(recipient_fields(emails@) =~= recipients_in(self.email_to_addresses@));
        emails
    }
}

} // verus!
