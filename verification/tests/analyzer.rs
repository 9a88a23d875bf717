use mustel::analyzer::{QueryType, SqlQueryAnalyzer, StatementKind};

#[test]
fn test_select_query_is_readonly() {
    let query = "SELECT id, name FROM users WHERE active = true;";
    assert!(matches!(SqlQueryAnalyzer::analyze(query), QueryType::ReadOnly));
}

#[test]
fn test_delete_query_is_destructive() {
    let query = "DELETE FROM users WHERE active = false;";
    assert!(matches!(SqlQueryAnalyzer::analyze(query), QueryType::Destructive(_)));
}

#[test]
fn test_drop_query_is_destructive() {
    let query = "DROP TABLE audit_logs;";
    assert!(matches!(SqlQueryAnalyzer::analyze(query), QueryType::Destructive(_)));
}

fn reason(q: QueryType) -> Option<String> {
    match q {
        QueryType::ReadOnly => None,
        QueryType::Destructive(r) => Some(r),
    }
}

#[test]
fn parsed_statements_name_the_operation() {
    assert_eq!(reason(SqlQueryAnalyzer::analyze("DELETE FROM t;")), Some("DELETE".to_string()));
    assert_eq!(reason(SqlQueryAnalyzer::analyze("TRUNCATE t;")), Some("TRUNCATE".to_string()));
    assert_eq!(reason(SqlQueryAnalyzer::analyze("UPDATE t SET a = 1;")), Some("UPDATE".to_string()));
    assert_eq!(reason(SqlQueryAnalyzer::analyze("INSERT INTO t VALUES (1);")), Some("INSERT".to_string()));
    assert_eq!(reason(SqlQueryAnalyzer::analyze("SELECT 1; DROP TABLE t;")), Some("DROP".to_string()));
}

#[test]
fn unparsable_text_falls_back_to_keywords() {
    assert_eq!(reason(SqlQueryAnalyzer::analyze("oops delete from users where (")), Some("DELETE/DROP".to_string()));
    assert_eq!(reason(SqlQueryAnalyzer::classify_fallback("X UPDATE T SET A")), Some("UPDATE".to_string()));
    assert_eq!(reason(SqlQueryAnalyzer::classify_fallback("X UPDATE T")), None);
    assert_eq!(reason(SqlQueryAnalyzer::analyze("plain words only")), None);
}

#[test]
fn classify_statements_takes_the_first_destructive() {
    let kinds = vec![StatementKind::Other, StatementKind::Update, StatementKind::Drop];
    assert_eq!(reason(SqlQueryAnalyzer::classify_statements(&kinds)), Some("UPDATE".to_string()));
    let kinds = vec![StatementKind::Other];
    assert_eq!(reason(SqlQueryAnalyzer::classify_statements(&kinds)), None);
}

#[test]
fn is_destructive_matches_the_verdict() {
    assert!(!SqlQueryAnalyzer::is_destructive(&QueryType::ReadOnly));
    assert!(SqlQueryAnalyzer::is_destructive(&QueryType::Destructive("DROP".to_string())));
}

#[test]
fn any_drop_or_alter_is_destructive() {
    assert_eq!(reason(SqlQueryAnalyzer::analyze("DROP FUNCTION f;")), Some("DROP".to_string()));
    assert_eq!(reason(SqlQueryAnalyzer::analyze("ALTER INDEX idx_a RENAME TO idx_b;")), Some("ALTER".to_string()));
    assert_eq!(reason(SqlQueryAnalyzer::analyze("ALTER TABLE t ADD COLUMN b INT;")), Some("ALTER TABLE".to_string()));
    assert_eq!(reason(SqlQueryAnalyzer::analyze("CREATE TABLE t (a INT);")), Some("CREATE".to_string()));
    assert_eq!(reason(SqlQueryAnalyzer::analyze("CREATE INDEX i ON t (a);")), None);
}
