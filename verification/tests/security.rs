use mustel::error::MustelError;
use mustel::security::SecurityUtils;

#[test]
fn test_validate_path() {
    assert!(SecurityUtils::validate_path("valid/path/file.sql").is_ok());
    assert!(SecurityUtils::validate_path("../invalid/file.sql").is_err());
    assert!(SecurityUtils::validate_path("dir/../file.sql").is_err());
}

#[test]
fn test_validate_path_null_byte() {
    let malicious_path = "safe\0/../../../etc/passwd";
    assert!(SecurityUtils::validate_path(malicious_path).is_err());
}

#[test]
fn test_validate_identifier() {
    assert!(SecurityUtils::validate_identifier("my_db").is_ok());
    assert!(SecurityUtils::validate_identifier("app-dev").is_ok());
    assert!(SecurityUtils::validate_identifier("123bad").is_err());
    assert!(SecurityUtils::validate_identifier("db; DROP TABLE users;").is_err());
}

#[test]
fn test_validate_identifier_sql_injection() {
    assert!(SecurityUtils::validate_identifier("table'; DROP TABLE users;--").is_err());
    assert!(SecurityUtils::validate_identifier("table/*comment*/").is_err());
}

#[test]
fn identifier_errors_are_security_errors() {
    match SecurityUtils::validate_identifier("") {
        Err(MustelError::Security(_)) => {}
        other => panic!("unexpected: {:?}", other),
    }
    match SecurityUtils::validate_identifier("123bad") {
        Err(MustelError::Security(_)) => {}
        other => panic!("unexpected: {:?}", other),
    }
}

#[test]
fn reserved_words_are_refused_in_any_case() {
    assert!(SecurityUtils::validate_identifier("select").is_err());
    assert!(SecurityUtils::validate_identifier("Drop").is_err());
    // Patterns are searched anywhere in the name, not as whole words.
    assert!(SecurityUtils::validate_identifier("selection").is_err());
    assert!(SecurityUtils::validate_identifier("reports_2024").is_ok());
}

#[test]
fn check_path_with_canonical_form() {
    assert!(SecurityUtils::check_path("a/b.sql", Some("/home/u/a/b.sql")).is_ok());
    assert!(SecurityUtils::check_path("a/b.sql", None).is_ok());
    assert!(SecurityUtils::check_path("a/../b.sql", None).is_err());
}
