use app_settings::settings::APPLICATION_NAME;
use app_settings::Settings;

fn settings_for(server: &str, database: &str, user: &str, password: &str) -> Settings {
    Settings {
        database_server: server.to_string(),
        database_name: database.to_string(),
        database_username: user.to_string(),
        database_password: password.to_string(),
        log_webhook_uri: "http://example.com".to_string(),
        sendgrid_api_key: "sendgrid-api-key".to_string(),
        email_from_name: "Test".to_string(),
        email_from_address: "test@example.com".to_string(),
        email_to_addresses: "user1@example.com".to_string(),
    }
}

#[test]
fn test_get_sql_settings() {
    let settings = Settings {
        database_server: "localhost".to_string(),
        database_name: "test_db".to_string(),
        database_username: "admin".to_string(),
        database_password: "password123".to_string(),
        log_webhook_uri: "http://example.com".to_string(),
        sendgrid_api_key: "sendgrid-api-key".to_string(),
        email_from_name: "Test".to_string(),
        email_from_address: "test@example.com".to_string(),
        email_to_addresses: "user1@example.com".to_string(),
    };

    let sql_settings = settings.get_sql_settings();

    assert_eq!(sql_settings.get_addr(), "localhost:1433");
}

#[test]
fn the_address_is_the_server_and_the_default_port() {
    let config = settings_for("db.example.com", "test_db", "admin", "password123").get_sql_settings();
    assert_eq!(config.get_addr(), "db.example.com:1433");
    let numeric = settings_for("10.0.0.7", "test_db", "admin", "password123").get_sql_settings();
    assert_eq!(numeric.get_addr(), "10.0.0.7:1433");
}

#[test]
fn every_part_of_the_connection_is_set() {
    assert_eq!(APPLICATION_NAME, "Login Checker");
    let config = settings_for("localhost", "test_db", "admin", "password123").get_sql_settings();
    let shown = format!("{:?}", config);
    assert!(shown.contains("host: Some(\"localhost\")"), "{}", shown);
    assert!(shown.contains("port: None"), "{}", shown);
    assert!(shown.contains("database: Some(\"test_db\")"), "{}", shown);
    assert!(shown.contains("instance_name: None"), "{}", shown);
    assert!(shown.contains("application_name: Some(\"Login Checker\")"), "{}", shown);
    assert!(shown.contains("encryption: Off"), "{}", shown);
    assert!(shown.contains("trust: TrustAll"), "{}", shown);
    assert!(shown.contains("user: \"admin\""), "{}", shown);
    assert!(shown.contains("SqlServer"), "{}", shown);
    assert!(shown.contains("readonly: false"), "{}", shown);
}

#[test]
fn empty_texts_pass_through() {
    let config = settings_for("", "", "", "").get_sql_settings();
    assert_eq!(config.get_addr(), ":1433");
    let shown = format!("{:?}", config);
    assert!(shown.contains("host: Some(\"\")"), "{}", shown);
    assert!(shown.contains("database: Some(\"\")"), "{}", shown);
    assert!(shown.contains("user: \"\""), "{}", shown);
}

#[test]
fn the_settings_are_left_as_they_were() {
    let settings = settings_for("localhost", "test_db", "admin", "password123");
    let before = settings.clone();
    let _ = settings.get_sql_settings();
    assert_eq!(settings, before);
}

#[test]
fn no_port_is_set_so_a_named_instance_changes_the_port() {
    let mut config = settings_for("localhost", "test_db", "admin", "password123").get_sql_settings();
    assert_eq!(config.get_addr(), "localhost:1433");
    config.instance_name("reports");
    assert_eq!(config.get_addr(), "localhost:1434");
}
