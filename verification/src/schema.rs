use crate::error::ErrorModel;
use crate::json::{error_text, members, parsed_json, text_of};
use crate::settings::SettingsModel;
use vstd::prelude::*;

verus! {

/// What a JSON document holds under a key.
pub enum Member {
    /// The document is no object, or the object has no such key.
    Absent,
    /// There is a member under the key, and it is no JSON string.
    NotText,
    /// The member under the key is this JSON string.
    Text(Seq<char>),
}

/// What `doc` holds under `key`.
pub open spec fn member_at(doc: serde_json::Value, key: Seq<char>) -> Member {
    if !members(doc).contains_key(key) {
        Member::Absent
    } else {
        match text_of(members(doc)[key]) {
            Some(text) => Member::Text(text),
            None => Member::NotText,
        }
    }
}

/// The cause reported for a required key that the document lacks. The
/// wording is this library's own.
pub open spec fn missing_detail(key: Seq<char>) -> Seq<char> {
    "missing field `"@ + key + "`"@
}

/// The cause reported for a required key whose member is no JSON string.
/// The wording is this library's own.
pub open spec fn mistyped_detail(key: Seq<char>) -> Seq<char> {
    "invalid type for field `"@ + key + "`, expected a string"@
}

/// The text under a required key, or the parse error that its lack causes.
pub open spec fn required_at(doc: serde_json::Value, key: Seq<char>) -> Result<
    Seq<char>,
    ErrorModel,
> {
    match member_at(doc, key) {
        Member::Text(text) => Ok(text),
        Member::Absent => Err(ErrorModel::ParseError { detail: missing_detail(key) }),
        Member::NotText => Err(ErrorModel::ParseError { detail: mistyped_detail(key) }),
    }
}

/// The keys of the settings schema, in the order of the fields.
pub open spec fn schema_keys() -> Seq<Seq<char>> {
    seq![
        "DatabaseServer"@,
        "DatabaseName"@,
        "DatabaseUsername"@,
        "DatabasePassword"@,
        "LogWebhookUri"@,
        "SendgridApiKey"@,
        "EmailFromName"@,
        "EmailFromAddress"@,
        "EmailToAddresses"@,
    ]
}

/// The first key of the schema, from position `from` on, under which `doc`
/// holds no text; `None` where it holds a text under each of them.
pub open spec fn first_unreadable(doc: serde_json::Value, from: int) -> Option<Seq<char>>
    decreases schema_keys().len() - from,
{
    if from < 0 || from >= schema_keys().len() {
        None
    } else if member_at(doc, schema_keys()[from]) is Text {
        first_unreadable(doc, from + 1)
    } else {
        Some(schema_keys()[from])
    }
}

/// The text that `doc` holds under `key`; meaningful where it holds one.
pub open spec fn text_at(doc: serde_json::Value, key: Seq<char>) -> Seq<char> {
    member_at(doc, key)->Text_0
}

/// The settings that a document spells out, each field read under its key.
pub open spec fn settings_in(doc: serde_json::Value) -> SettingsModel {
    SettingsModel {
        database_server: text_at(doc, "DatabaseServer"@),
        database_name: text_at(doc, "DatabaseName"@),
        database_username: text_at(doc, "DatabaseUsername"@),
        database_password: text_at(doc, "DatabasePassword"@),
        log_webhook_uri: text_at(doc, "LogWebhookUri"@),
        sendgrid_api_key: text_at(doc, "SendgridApiKey"@),
        email_from_name: text_at(doc, "EmailFromName"@),
        email_from_address: text_at(doc, "EmailFromAddress"@),
        email_to_addresses: text_at(doc, "EmailToAddresses"@),
    }
}

/// Reading a parsed document against the schema: the settings where every
/// key holds a text, else the parse error of the first key that does not.
pub open spec fn read_document(doc: serde_json::Value) -> Result<SettingsModel, ErrorModel> {
    match first_unreadable(doc, 0) {
        None => Ok(settings_in(doc)),
        Some(key) => Err(required_at(doc, key)->Err_0),
    }
}

/// Reading a blob: the parser's own complaint where the text is no JSON,
/// else what the document reads as.
pub open spec fn read_blob(blob: Seq<char>) -> Result<SettingsModel, ErrorModel> {
    match parsed_json(blob) {
        Err(error) => Err(ErrorModel::ParseError { detail: error_text(error) }),
        Ok(doc) => read_document(doc),
    }
}

/// Resolving from the outcome of the variable lookup: an environment error
/// with the lookup's own complaint where it failed, else what the blob reads as.
pub open spec fn resolve(lookup: Result<Seq<char>, Seq<char>>) -> Result<SettingsModel, ErrorModel> {
    match lookup {
        Err(cause) => Err(ErrorModel::EnvironmentError { detail: cause }),
        Ok(blob) => read_blob(blob),
    }
}

/// The members that spell a settings value in a JSON object: each field's
/// text under the field's key.
pub open spec fn entries(settings: SettingsModel) -> Map<Seq<char>, Seq<char>> {
    map![
        "DatabaseServer"@ => settings.database_server,
        "DatabaseName"@ => settings.database_name,
        "DatabaseUsername"@ => settings.database_username,
        "DatabasePassword"@ => settings.database_password,
        "LogWebhookUri"@ => settings.log_webhook_uri,
        "SendgridApiKey"@ => settings.sendgrid_api_key,
        "EmailFromName"@ => settings.email_from_name,
        "EmailFromAddress"@ => settings.email_from_address,
        "EmailToAddresses"@ => settings.email_to_addresses,
    ]
}

/// Whether a document holds every entry of a settings value as a JSON
/// string. It may hold members under other keys besides.
pub open spec fn spells(doc: serde_json::Value, settings: SettingsModel) -> bool {
    forall|key: Seq<char>| #[trigger]
        entries(settings).contains_key(key) ==> member_at(doc, key) == Member::Text(
            entries(settings)[key],
        )
}

/// No two keys of the schema are the same, and there are nine of them.
pub proof fn lemma_schema_keys_distinct()
    ensures
        schema_keys().len() == 9,
        forall|i: int, j: int|
            0 <= i < j < schema_keys().len() ==> schema_keys()[i] != schema_keys()[j],
{
    reveal_strlit("DatabaseServer");
    reveal_strlit("DatabaseName");
    reveal_strlit("DatabaseUsername");
    reveal_strlit("DatabasePassword");
    reveal_strlit("LogWebhookUri");
    reveal_strlit("SendgridApiKey");
    reveal_strlit("EmailFromName");
    reveal_strlit("EmailFromAddress");
    reveal_strlit("EmailToAddresses");
    let keys = schema_keys();
    assert(keys[0].len() == 14 && keys[1].len() == 12 && keys[2].len() == 16);
    assert(keys[3].len() == 16 && keys[4].len() == 13 && keys[5].len() == 14);
    assert(keys[6].len() == 13 && keys[7].len() == 16 && keys[8].len() == 16);
    assert(keys[0][0] == 'D' && keys[2][0] == 'D' && keys[3][0] == 'D');
    assert(keys[4][0] == 'L' && keys[5][0] == 'S');
    assert(keys[6][0] == 'E' && keys[7][0] == 'E' && keys[8][0] == 'E');
    assert(keys[2][8] == 'U' && keys[3][8] == 'P');
    assert(keys[7][5] == 'F' && keys[8][5] == 'T');
}

/// Under each key of the schema, the entries of a settings value hold the
/// text of the field that the key stands for.
pub proof fn lemma_entries_by_key(settings: SettingsModel)
    ensures
        forall|i: int| 0 <= i < 9 ==> entries(settings).contains_key(#[trigger] schema_keys()[i]),
        entries(settings)["DatabaseServer"@] == settings.database_server,
        entries(settings)["DatabaseName"@] == settings.database_name,
        entries(settings)["DatabaseUsername"@] == settings.database_username,
        entries(settings)["DatabasePassword"@] == settings.database_password,
        entries(settings)["LogWebhookUri"@] == settings.log_webhook_uri,
        entries(settings)["SendgridApiKey"@] == settings.sendgrid_api_key,
        entries(settings)["EmailFromName"@] == settings.email_from_name,
        entries(settings)["EmailFromAddress"@] == settings.email_from_address,
        entries(settings)["EmailToAddresses"@] == settings.email_to_addresses,
{
    lemma_schema_keys_distinct();
}

/// Writing a settings value out under the schema's keys and reading the
/// document back yields the same value, field by field.
pub proof fn lemma_spelled_settings_read_back(doc: serde_json::Value, settings: SettingsModel)
    requires
        spells(doc, settings),
    ensures
        read_document(doc) == Ok::<SettingsModel, ErrorModel>(settings),
{
    lemma_entries_by_key(settings);
    reveal_with_fuel(first_unreadable, 10);
}

/// A document that holds a text under every key of the schema reads as the
/// settings made of those texts, whatever else it holds.
pub proof fn lemma_complete_document_reads(doc: serde_json::Value)
    requires
        forall|i: int| 0 <= i < 9 ==> member_at(doc, #[trigger] schema_keys()[i]) is Text,
    ensures
        read_document(doc) == Ok::<SettingsModel, ErrorModel>(settings_in(doc)),
{
    reveal_with_fuel(first_unreadable, 10);
}

/// A document that lacks a text under some key of the schema is refused
/// with a parse error.
pub proof fn lemma_incomplete_document_fails(doc: serde_json::Value, i: int)
    requires
        0 <= i < 9,
        !(member_at(doc, schema_keys()[i]) is Text),
    ensures
        read_document(doc) is Err,
        read_document(doc)->Err_0 is ParseError,
{
    reveal_with_fuel(first_unreadable, 10);
}

/// Reading a document never yields an environment error.
pub proof fn lemma_document_errors_are_parse_errors(doc: serde_json::Value)
    ensures
        read_document(doc) matches Err(error) ==> error is ParseError,
{
    reveal_with_fuel(first_unreadable, 10);
}

/// Resolving fails with an environment error exactly where the lookup
/// failed, and then carries the lookup's complaint; every other failure is a
/// parse error.
pub proof fn lemma_error_kinds(lookup: Result<Seq<char>, Seq<char>>)
    ensures
        lookup matches Err(cause) ==> resolve(lookup) == Err::<SettingsModel, ErrorModel>(
            ErrorModel::EnvironmentError { detail: cause },
        ),
        lookup is Ok ==> (resolve(lookup) matches Err(error) ==> error is ParseError),
{
    if let Ok(blob) = lookup {
        if let Ok(doc) = parsed_json(blob) {
            lemma_document_errors_are_parse_errors(doc);
        }
    }
}

/// A blob that is no JSON is refused with a parse error that carries the
/// parser's complaint.
pub proof fn lemma_malformed_blob_fails(blob: Seq<char>)
    ensures
        parsed_json(blob) matches Err(error) ==> resolve(Ok(blob)) == Err::<
            SettingsModel,
            ErrorModel,
        >(ErrorModel::ParseError { detail: error_text(error) }),
{
}

/// A blob that parses to a document with a text under every key of the
/// schema resolves to the settings made of those texts: each field equals
/// the JSON string under its key.
pub proof fn lemma_complete_blob_resolves(blob: Seq<char>)
    ensures
        parsed_json(blob) matches Ok(doc) ==> ((forall|i: int|
            0 <= i < 9 ==> member_at(doc, #[trigger] schema_keys()[i]) is Text) ==> resolve(
            Ok(blob),
        ) == Ok::<SettingsModel, ErrorModel>(settings_in(doc))),
{
    if let Ok(doc) = parsed_json(blob) {
        if forall|i: int| 0 <= i < 9 ==> member_at(doc, #[trigger] schema_keys()[i]) is Text {
            lemma_complete_document_reads(doc);
        }
    }
}

/// A blob that parses to a document without a text under some key of the
/// schema is refused with a parse error.
pub proof fn lemma_incomplete_blob_fails(blob: Seq<char>, i: int)
    requires
        0 <= i < 9,
    ensures
        parsed_json(blob) matches Ok(doc) ==> (!(member_at(doc, schema_keys()[i]) is Text)
            ==> (resolve(Ok(blob)) matches Err(error) && error is ParseError)),
{
    if let Ok(doc) = parsed_json(blob) {
        if !(member_at(doc, schema_keys()[i]) is Text) {
            lemma_incomplete_document_fails(doc, i);
        }
    }
}

} // verus!
