use crate::schema::schema_keys;
use vstd::prelude::*;

verus! {

/// The names of the fields of the settings, in their order.
pub open spec fn field_names() -> Seq<Seq<char>> {
    seq![
        "database_server"@,
        "database_name"@,
        "database_username"@,
        "database_password"@,
        "log_webhook_uri"@,
        "sendgrid_api_key"@,
        "email_from_name"@,
        "email_from_address"@,
        "email_to_addresses"@,
    ]
}

/// The capital of a small ASCII letter; any other character itself.
pub open spec fn capital(c: char) -> char {
    if 'a' <= c && c <= 'z' {
        ((c as u8) - 32) as u8 as char
    } else {
        c
    }
}

/// A name in PascalCase: the underscores are dropped, and the first
/// character and each one behind an underscore are capitalised.
pub open spec fn pascal_case(name: Seq<char>) -> Seq<char>
    decreases name.len(),
{
    if name.len() == 0 {
        name
    } else {
        let front = name.drop_last();
        let c = name.last();
        if c == '_' {
            pascal_case(front)
        } else if front.len() == 0 || front.last() == '_' {
            pascal_case(front).push(capital(c))
        } else {
            pascal_case(front).push(c)
        }
    }
}

proof fn lemma_database_server_key()
    ensures
        pascal_case("database_server"@) == "DatabaseServer"@,
{
    reveal_strlit("database_server");
    reveal_strlit("DatabaseServer");
    reveal_with_fuel(pascal_case, 20);
    assert(pascal_case("database_server"@) =~= "DatabaseServer"@);
}

proof fn lemma_database_name_key()
    ensures
        pascal_case("database_name"@) == "DatabaseName"@,
{
    reveal_strlit("database_name");
    reveal_strlit("DatabaseName");
    reveal_with_fuel(pascal_case, 20);
    assert(pascal_case("database_name"@) =~= "DatabaseName"@);
}

proof fn lemma_database_username_key()
    ensures
        pascal_case("database_username"@) == "DatabaseUsername"@,
{
    reveal_strlit("database_username");
    reveal_strlit("DatabaseUsername");
    reveal_with_fuel(pascal_case, 20);
    assert(pascal_case("database_username"@) =~= "DatabaseUsername"@);
}

proof fn lemma_database_password_key()
    ensures
        pascal_case("database_password"@) == "DatabasePassword"@,
{
    reveal_strlit("database_password");
    reveal_strlit("DatabasePassword");
    reveal_with_fuel(pascal_case, 20);
    assert(pascal_case("database_password"@) =~= "DatabasePassword"@);
}

proof fn lemma_log_webhook_uri_key()
    ensures
        pascal_case("log_webhook_uri"@) == "LogWebhookUri"@,
{
    reveal_strlit("log_webhook_uri");
    reveal_strlit("LogWebhookUri");
    reveal_with_fuel(pascal_case, 20);
    assert(pascal_case("log_webhook_uri"@) =~= "LogWebhookUri"@);
}

proof fn lemma_sendgrid_api_key_key()
    ensures
        pascal_case("sendgrid_api_key"@) == "SendgridApiKey"@,
{
    reveal_strlit("sendgrid_api_key");
    reveal_strlit("SendgridApiKey");
    reveal_with_fuel(pascal_case, 20);
    assert(pascal_case("sendgrid_api_key"@) =~= "SendgridApiKey"@);
}

proof fn lemma_email_from_name_key()
    ensures
        pascal_case("email_from_name"@) == "EmailFromName"@,
{
    reveal_strlit("email_from_name");
    reveal_strlit("EmailFromName");
    reveal_with_fuel(pascal_case, 20);
    assert(pascal_case("email_from_name"@) =~= "EmailFromName"@);
}

proof fn lemma_email_from_address_key()
    ensures
        pascal_case("email_from_address"@) == "EmailFromAddress"@,
{
    reveal_strlit("email_from_address");
    reveal_strlit("EmailFromAddress");
    reveal_with_fuel(pascal_case, 20);
    assert(pascal_case("email_from_address"@) =~= "EmailFromAddress"@);
}

proof fn lemma_email_to_addresses_key()
    ensures
        pascal_case("email_to_addresses"@) == "EmailToAddresses"@,
{
    reveal_strlit("email_to_addresses");
    reveal_strlit("EmailToAddresses");
    reveal_with_fuel(pascal_case, 20);
    assert(pascal_case("email_to_addresses"@) =~= "EmailToAddresses"@);
}

/// Each key of the schema is the PascalCase form of the name of its field.
pub proof fn lemma_keys_are_pascal_case()
    ensures
        field_names().len() == schema_keys().len(),
        forall|i: int|
            0 <= i < schema_keys().len() ==> #[trigger] schema_keys()[i] == pascal_case(
                field_names()[i],
            ),
{
    lemma_database_server_key();
    lemma_database_name_key();
    lemma_database_username_key();
    lemma_database_password_key();
    lemma_log_webhook_uri_key();
    lemma_sendgrid_api_key_key();
    lemma_email_from_name_key();
    lemma_email_from_address_key();
    lemma_email_to_addresses_key();
}

} // verus!
