use mustel::connection::DbConnectionBuilder;
use mustel::credential_store::CredentialStore;
use mustel::models::ServerConfigEntry;

fn create_base_server() -> ServerConfigEntry {
    ServerConfigEntry {
        name: "test_server".to_string(),
        host: "localhost".to_string(),
        port: 5432,
        username: "test_user".to_string(),
        password: None,
        encrypted_password: None,
        databases: None,
        fetch_all_databases: None,
        exclude_patterns: None,
        ssl_mode: None,
        timeout: None,
        command_timeout: None,
        max_parallelism: None,
    }
}

fn key_store() -> CredentialStore {
    CredentialStore::from_key_bytes(vec![3u8; 32]).unwrap()
}

#[test]
fn test_build_config_database_resolution() {
    let store = key_store();
    // Fallback to "postgres"
    let server = create_base_server();
    let config = DbConnectionBuilder::build_config(&server, None, None, &store).unwrap();
    assert_eq!(config.dbname, "postgres");

    // Use database_override
    let config = DbConnectionBuilder::build_config(&server, Some("override_db"), None, &store).unwrap();
    assert_eq!(config.dbname, "override_db");

    // Fallback to databases list
    let mut server_with_db = create_base_server();
    server_with_db.databases = Some(vec!["server_db".to_string()]);
    let config = DbConnectionBuilder::build_config(&server_with_db, None, None, &store).unwrap();
    assert_eq!(config.dbname, "server_db");

    // database_override takes precedence over databases list
    let config = DbConnectionBuilder::build_config(&server_with_db, Some("override_db"), None, &store).unwrap();
    assert_eq!(config.dbname, "override_db");
}

#[test]
fn test_build_config_password_resolution() {
    let store = key_store();
    // No password
    let server = create_base_server();
    let config = DbConnectionBuilder::build_config(&server, None, None, &store).unwrap();
    assert_eq!(config.password, None);

    // Password override
    let config = DbConnectionBuilder::build_config(&server, None, Some("override_pass"), &store).unwrap();
    assert_eq!(config.password.as_deref().map(|p| p.as_bytes()), Some("override_pass".as_bytes()));

    // Server password
    let mut server_with_pass = create_base_server();
    server_with_pass.password = Some("server_pass".to_string());
    let config = DbConnectionBuilder::build_config(&server_with_pass, None, None, &store).unwrap();
    assert_eq!(config.password.as_deref().map(|p| p.as_bytes()), Some("server_pass".as_bytes()));

    // Password override takes precedence over server password
    let config = DbConnectionBuilder::build_config(&server_with_pass, None, Some("override_pass"), &store).unwrap();
    assert_eq!(config.password.as_deref().map(|p| p.as_bytes()), Some("override_pass".as_bytes()));

    // Server encrypted password
    let mut server_with_enc_pass = create_base_server();
    let enc_pass = store.encrypt_password("encrypted_pass").unwrap();
    server_with_enc_pass.encrypted_password = Some(enc_pass);
    let config = DbConnectionBuilder::build_config(&server_with_enc_pass, None, None, &store).unwrap();
    assert_eq!(config.password.as_deref().map(|p| p.as_bytes()), Some("encrypted_pass".as_bytes()));
}

#[test]
fn test_build_config_timeout() {
    let store = key_store();
    // Default timeout is 30 seconds if None
    let server = create_base_server();
    let config = DbConnectionBuilder::build_config(&server, None, None, &store).unwrap();
    assert_eq!(config.connect_timeout_secs, 30);

    // Custom timeout
    let mut server_with_timeout = create_base_server();
    server_with_timeout.timeout = Some(60);
    let config = DbConnectionBuilder::build_config(&server_with_timeout, None, None, &store).unwrap();
    assert_eq!(config.connect_timeout_secs, 60);
}

#[test]
fn test_build_config_basic() {
    let store = key_store();
    let server = create_base_server();
    let config = DbConnectionBuilder::build_config(&server, None, None, &store).unwrap();

    assert_eq!(config.host, "localhost");
    assert_eq!(config.port, 5432);
    assert_eq!(config.user, "test_user");
}

#[test]
fn undecryptable_password_fails_the_build() {
    let mut server = create_base_server();
    server.encrypted_password = Some(key_store().encrypt_password("pw").unwrap());
    let other = CredentialStore::from_key_bytes(vec![4u8; 32]).unwrap();
    assert!(DbConnectionBuilder::build_config(&server, None, None, &other).is_err());
}
