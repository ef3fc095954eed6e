use app_settings::SettingsError;
use app_settings::Settings;
use app_settings::SECRET_VARIABLE;

const BLOB: &str = r#"{
                "DatabaseServer": "localhost",
                "DatabaseName": "test_db",
                "DatabaseUsername": "admin",
                "DatabasePassword": "password123",
                "LogWebhookUri": "https://example.com",
                "SendgridApiKey": "sendgrid-api-key",
                "EmailFromName": "Test",
                "EmailFromAddress": "test@example.com",
                "EmailToAddresses": "user1@example.com,user2@example.com"
            }"#;

const KEYS: [&str; 9] = [
    "DatabaseServer",
    "DatabaseName",
    "DatabaseUsername",
    "DatabasePassword",
    "LogWebhookUri",
    "SendgridApiKey",
    "EmailFromName",
    "EmailFromAddress",
    "EmailToAddresses",
];

fn sample() -> Settings {
    Settings {
        database_server: "localhost".to_string(),
        database_name: "test_db".to_string(),
        database_username: "admin".to_string(),
        database_password: "password123".to_string(),
        log_webhook_uri: "https://example.com".to_string(),
        sendgrid_api_key: "sendgrid-api-key".to_string(),
        email_from_name: "Test".to_string(),
        email_from_address: "test@example.com".to_string(),
        email_to_addresses: "user1@example.com,user2@example.com".to_string(),
    }
}

fn document_of(settings: &Settings) -> serde_json::Map<String, serde_json::Value> {
    let values = [
        &settings.database_server,
        &settings.database_name,
        &settings.database_username,
        &settings.database_password,
        &settings.log_webhook_uri,
        &settings.sendgrid_api_key,
        &settings.email_from_name,
        &settings.email_from_address,
        &settings.email_to_addresses,
    ];
    let mut object = serde_json::Map::new();
    for (key, value) in KEYS.iter().zip(values.iter()) {
        object.insert(key.to_string(), serde_json::Value::String(value.to_string()));
    }
    object
}

#[test]
fn test_get_settings_success() {
    let result = Settings::get_settings(Ok(BLOB.to_string()));
    assert!(result.is_ok());
    let settings = result.unwrap();
    assert_eq!(settings.database_server, "localhost");
    assert_eq!(settings.database_name, "test_db");
}

#[test]
fn test_get_settings_missing_env_var() {
    assert_eq!(SECRET_VARIABLE, "SecretBlob");
    let lookup = Err("environment variable not found".to_string());

    let result = Settings::get_settings(lookup);
    assert!(result.is_err());
    assert_eq!(
        result.unwrap_err().message(),
        "Error getting env variable: environment variable not found"
    );
}

#[test]
fn test_get_settings_invalid_json() {
    assert_eq!(SECRET_VARIABLE, "SecretBlob");
    let result = Settings::get_settings(Ok("invalid json".to_string()));
    assert!(result.is_err());
    assert!(result
        .unwrap_err()
        .message()
        .contains("Could not deserialize settings blob: expected value at line 1 column 1"));
}

#[test]
fn every_field_equals_its_json_value() {
    let settings = Settings::get_settings(Ok(BLOB.to_string())).unwrap();
    assert_eq!(settings, sample());
}

#[test]
fn failed_lookup_is_an_environment_error_with_the_cause() {
    let result = Settings::get_settings(Err("no such variable".to_string()));
    match result {
        Err(SettingsError::EnvironmentError { detail }) => assert_eq!(detail, "no such variable"),
        _ => panic!("expected an environment error"),
    }
}

#[test]
fn malformed_text_is_a_parse_error_with_the_parser_message() {
    let result = Settings::get_settings(Ok("invalid json".to_string()));
    match result {
        Err(SettingsError::ParseError { detail }) => {
            assert_eq!(detail, "expected value at line 1 column 1")
        }
        _ => panic!("expected a parse error"),
    }
    let cut_short = Settings::from_json("{\"DatabaseServer\": \"localhost\"");
    match cut_short {
        Err(SettingsError::ParseError { detail }) => {
            assert_eq!(detail, "EOF while parsing an object at line 1 column 30")
        }
        _ => panic!("expected a parse error"),
    }
}

#[test]
fn each_missing_key_is_a_parse_error_naming_it() {
    for key in KEYS.iter() {
        let mut object = document_of(&sample());
        object.remove(*key);
        let text = serde_json::to_string(&serde_json::Value::Object(object)).unwrap();
        match Settings::get_settings(Ok(text)) {
            Err(SettingsError::ParseError { detail }) => {
                assert_eq!(detail, format!("missing field `{}`", key))
            }
            _ => panic!("expected a parse error"),
        }
    }
}

#[test]
fn a_member_that_is_no_string_is_a_parse_error_naming_it() {
    for key in KEYS.iter() {
        let mut object = document_of(&sample());
        object.insert(key.to_string(), serde_json::Value::Bool(true));
        let doc = serde_json::Value::Object(object);
        match Settings::from_document(&doc) {
            Err(SettingsError::ParseError { detail }) => {
                assert_eq!(detail, format!("invalid type for field `{}`, expected a string", key))
            }
            _ => panic!("expected a parse error"),
        }
    }
}

#[test]
fn the_first_unreadable_key_in_schema_order_is_reported() {
    let mut object = document_of(&sample());
    object.remove("EmailFromName");
    object.insert("DatabaseName".to_string(), serde_json::Value::Null);
    object.remove("EmailToAddresses");
    let error = Settings::from_document(&serde_json::Value::Object(object)).unwrap_err();
    assert_eq!(error.detail(), "invalid type for field `DatabaseName`, expected a string");
    assert_eq!(
        error.message(),
        "Could not deserialize settings blob: invalid type for field `DatabaseName`, expected a string"
    );
}

#[test]
fn a_document_that_is_no_object_lacks_the_first_key() {
    for text in ["[]", "\"text\"", "12", "null", "true", "{}"] {
        let error = Settings::from_json(text).unwrap_err();
        assert!(matches!(error, SettingsError::ParseError { .. }));
        assert_eq!(error.detail(), "missing field `DatabaseServer`");
    }
}

#[test]
fn members_under_other_keys_are_ignored() {
    let mut object = document_of(&sample());
    object.insert("Extra".to_string(), serde_json::Value::Bool(false));
    object.insert("databaseserver".to_string(), serde_json::Value::String("other".to_string()));
    let settings = Settings::from_document(&serde_json::Value::Object(object)).unwrap();
    assert_eq!(settings, sample());
}

#[test]
fn keys_are_matched_exactly() {
    let text = BLOB.replace("\"DatabaseServer\"", "\"database_server\"");
    let error = Settings::from_json(&text).unwrap_err();
    assert_eq!(error.detail(), "missing field `DatabaseServer`");
}

#[test]
fn texts_are_taken_over_unchanged() {
    let text = BLOB
        .replace("\"localhost\"", "\"  h\\u00f6st \\\"a\\\"\\n\"")
        .replace("\"test_db\"", "\"\"");
    let settings = Settings::from_json(&text).unwrap();
    assert_eq!(settings.database_server, "  höst \"a\"\n");
    assert_eq!(settings.database_name, "");
    assert_eq!(settings.database_username, "admin");
}

#[test]
fn written_out_and_read_back_settings_are_equal() {
    let mut odd = sample();
    odd.database_password = "p\"a,s\\s\u{1F511} wörd\n".to_string();
    odd.email_to_addresses = String::new();
    for settings in [sample(), odd] {
        let doc = serde_json::Value::Object(document_of(&settings));
        assert_eq!(Settings::from_document(&doc).unwrap(), settings);
        let text = serde_json::to_string(&doc).unwrap();
        assert_eq!(Settings::from_json(&text).unwrap(), settings);
        assert_eq!(Settings::get_settings(Ok(text)).unwrap(), settings);
    }
}

#[test]
fn messages_start_with_the_prefix_of_the_kind() {
    let environment = SettingsError::EnvironmentError { detail: "gone".to_string() };
    let parse = SettingsError::ParseError { detail: "bad".to_string() };
    assert_eq!(environment.message(), "Error getting env variable: gone");
    assert_eq!(parse.message(), "Could not deserialize settings blob: bad");
    assert_eq!(environment.detail(), "gone");
    assert_eq!(parse.detail(), "bad");
    let empty = SettingsError::ParseError { detail: String::new() };
    assert_eq!(empty.message(), "Could not deserialize settings blob: ");
}

#[test]
fn errors_of_different_kinds_have_different_messages() {
    for cause in ["", "gone", "Error getting env variable: gone"] {
        let environment = SettingsError::EnvironmentError { detail: cause.to_string() };
        let parse = SettingsError::ParseError { detail: cause.to_string() };
        assert_ne!(environment.message(), parse.message());
        assert_ne!(environment, parse);
        assert!(environment.message().ends_with(cause));
        assert!(parse.message().ends_with(cause));
    }
}

#[test]
fn a_key_given_twice_counts_with_its_last_value() {
    let text = BLOB.replace(
        "\"DatabaseName\": \"test_db\",",
        "\"DatabaseName\": \"first\", \"DatabaseName\": \"second\",",
    );
    assert_ne!(text, BLOB);
    let settings = Settings::from_json(&text).unwrap();
    assert_eq!(settings.database_name, "second");
    assert_eq!(settings.database_server, "localhost");
}

#[test]
fn a_member_outside_the_schema_that_cannot_be_parsed_fails_the_blob() {
    let out_of_range = BLOB.replace("{", "{\"Extra\": 1e999,");
    match Settings::from_json(&out_of_range) {
        Err(SettingsError::ParseError { detail }) => {
            assert!(detail.starts_with("number out of range"), "{}", detail)
        }
        _ => panic!("expected a parse error"),
    }
    let nested = format!("{}{}", "[".repeat(200), "]".repeat(200));
    let too_deep = BLOB.replace("{", &format!("{{\"Extra\": {},", nested));
    match Settings::from_json(&too_deep) {
        Err(SettingsError::ParseError { detail }) => {
            assert!(detail.starts_with("recursion limit exceeded"), "{}", detail)
        }
        _ => panic!("expected a parse error"),
    }
    let shallow = BLOB.replace("{", "{\"Extra\": [[1, 2.5], {\"a\": null}],");
    assert!(Settings::from_json(&shallow).is_ok());
}

#[test]
fn an_array_of_the_nine_texts_is_refused() {
    let text = "[\"a\",\"b\",\"c\",\"d\",\"e\",\"f\",\"g\",\"h\",\"i\"]";
    let error = Settings::from_json(text).unwrap_err();
    assert_eq!(error.detail(), "missing field `DatabaseServer`");
}
