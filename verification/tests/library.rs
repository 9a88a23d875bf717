use mustel::cli::{CliApp, Commands, QuerySubcommands, Route, SettingsSubcommands};
use mustel::db_servers::DbServersSubcommand;
use mustel::analyzer::{statement_kind, StatementKind};
use mustel::connection::DbConnectionBuilder;
use mustel::editor::SqlEditorState;
use mustel::error::MustelError;
use mustel::executor::{ConnectRetry, DbExecutor, RetryDecision};
use mustel::exporter::{encode, CellValue, CsvExporter, ExecutionLogEntry, RowData};
use mustel::gui_app::{
    connection_failure_message, target_database, theme_choices, Message, MustelApp, QueryJob, ThemeChoice,
};
use mustel::models::{ServerConfigEntry, SslMode, UserConfig};
use mustel::query_runner::{QueryRunArgs, QueryRunner, QuerySource, ServerSelection};
use mustel::results::{QueryResultData, QueryResultTable};
use mustel::server_manager::ServerFormState;
use mustel::sidebar::ConnectionSidebarState;
use mustel::text::parse_u16;
use mustel::user_config::UserConfigService;

fn server(name: &str) -> ServerConfigEntry {
    ServerConfigEntry {
        name: name.to_string(),
        host: format!("{}.example", name),
        port: 5432,
        username: "postgres".to_string(),
        password: None,
        encrypted_password: None,
        databases: None,
        fetch_all_databases: None,
        exclude_patterns: None,
        ssl_mode: None,
        timeout: None,
        command_timeout: None,
        max_parallelism: None,
    }
}

fn args() -> QueryRunArgs {
    QueryRunArgs {
        input: None,
        command: None,
        output: None,
        connection_string: None,
        servers: None,
        host: None,
        port: None,
        database: None,
        username: None,
        password: None,
        ssl_mode: None,
        timeout: None,
        command_timeout: None,
        all: false,
        exclude: None,
        no_confirm: false,
    }
}

fn service() -> UserConfigService {
    UserConfigService::new("/tmp/mustel.jsonc".to_string())
}

#[test]
fn upsert_replaces_by_name_ignoring_case() {
    let svc = service();
    let mut config = UserConfig::default();
    svc.add_or_update_server(&mut config, server("prod"));
    svc.add_or_update_server(&mut config, server("dev"));
    let mut again = server("PROD");
    again.port = 6543;
    svc.add_or_update_server(&mut config, again);
    assert_eq!(config.servers.len(), 2);
    assert_eq!(svc.get_server(&config, "prod").unwrap().port, 6543);
    assert_eq!(svc.get_servers(&config).len(), 2);
}

#[test]
fn remove_reports_whether_something_went() {
    let svc = service();
    let mut config = UserConfig::default();
    svc.add_or_update_server(&mut config, server("a"));
    assert!(svc.remove_server(&mut config, "A"));
    assert!(!svc.remove_server(&mut config, "a"));
    assert!(svc.get_server(&config, "a").is_none());
}

#[test]
fn set_encrypted_password_clears_plaintext() {
    let svc = service();
    let mut config = UserConfig::default();
    let mut s = server("a");
    s.password = Some("plain".to_string());
    svc.add_or_update_server(&mut config, s);
    assert!(svc.set_encrypted_password(&mut config, "a", "ENC".to_string()).is_ok());
    let got = svc.get_server(&config, "a").unwrap();
    assert_eq!(got.encrypted_password.as_deref(), Some("ENC"));
    assert_eq!(got.password, None);
    match svc.set_encrypted_password(&mut config, "missing", "x".to_string()) {
        Err(MustelError::Config(_)) => {}
        other => panic!("unexpected {:?}", other),
    }
}

#[test]
fn config_path_prefers_existing_files() {
    let m = Some("/c/mustel.jsonc".to_string());
    let l = Some("/c/furlab.jsonc".to_string());
    assert_eq!(UserConfigService::resolve_config_path(m.clone(), true, l.clone(), true), "/c/mustel.jsonc");
    assert_eq!(UserConfigService::resolve_config_path(m.clone(), false, l.clone(), true), "/c/furlab.jsonc");
    assert_eq!(UserConfigService::resolve_config_path(m, false, l, false), "/c/mustel.jsonc");
    assert_eq!(UserConfigService::resolve_config_path(None, false, None, false), "mustel.jsonc");
}

#[test]
fn ssl_modes_parse_and_display() {
    assert_eq!(SslMode::parse("REQUIRE").unwrap(), SslMode::Require);
    assert_eq!(SslMode::parse("verify-full").unwrap(), SslMode::VerifyFull);
    assert_eq!(SslMode::parse("verifyca").unwrap(), SslMode::VerifyCa);
    assert_eq!(SslMode::parse("bogus").unwrap_err(), "Unknown SSL mode: bogus");
    for m in [SslMode::Disable, SslMode::Prefer, SslMode::Require, SslMode::VerifyCa, SslMode::VerifyFull] {
        assert_eq!(SslMode::parse(&m.display_name()).unwrap(), m);
    }
    assert_eq!(SslMode::default(), SslMode::Prefer);
}

#[test]
fn retry_schedule_waits_then_falls_back() {
    let mut r = ConnectRetry::new();
    assert!(r.may_retry());
    assert_eq!(r.after_tls_failure(None), RetryDecision::RetryAfter(500));
    assert_eq!(r.after_tls_failure(Some(SslMode::Prefer)), RetryDecision::RetryAfter(1000));
    assert_eq!(r.after_tls_failure(Some(SslMode::Prefer)), RetryDecision::FallBackToNoTls);
    assert!(!r.may_retry());
}

#[test]
fn databases_are_filtered_by_glob_patterns() {
    let mut s = server("a");
    s.exclude_patterns = Some(vec!["test_*".to_string()]);
    let found = vec![
        "app".to_string(),
        "test_one".to_string(),
        "template0".to_string(),
        "analytics".to_string(),
        "scratch".to_string(),
    ];
    let extra = vec!["scr?tch".to_string()];
    let kept = DbExecutor::exclude_databases(found, &s, Some(&extra));
    assert_eq!(kept, vec!["app".to_string(), "analytics".to_string()]);
}

#[test]
fn invalid_glob_patterns_are_ignored() {
    let mut s = server("a");
    s.exclude_patterns = Some(vec!["[".to_string()]);
    let kept = DbExecutor::exclude_databases(vec!["[".to_string(), "x".to_string()], &s, None);
    assert_eq!(kept, vec!["[".to_string(), "x".to_string()]);
}

#[test]
fn executor_error_messages() {
    match DbExecutor::connection_failure("db", 5433, "refused") {
        MustelError::Database(m) => assert_eq!(m, "Failed to connect to db:5433 after 3 attempts: refused"),
        other => panic!("unexpected {:?}", other),
    }
    match DbExecutor::list_failure("boom") {
        MustelError::Database(m) => assert_eq!(m, "Failed to list databases: boom"),
        other => panic!("unexpected {:?}", other),
    }
}

#[test]
fn hex_encoding_of_bytes() {
    assert_eq!(encode(&vec![0x00, 0xff, 0x10, 0xab]), "00ff10ab");
    assert_eq!(encode(&vec![]), "");
    assert_eq!(CsvExporter::csv_cell(&CellValue::Bytes(vec![1, 2])), "\\x0102");
}

#[test]
fn csv_records_have_a_header_and_padded_rows() {
    let rows = vec![
        RowData {
            columns: vec!["id".to_string(), "name".to_string(), "ok".to_string()],
            cells: vec![CellValue::Integer(-7), CellValue::Text("x".to_string()), CellValue::Bool(true)],
        },
        RowData {
            columns: vec!["id".to_string(), "name".to_string(), "ok".to_string()],
            cells: vec![CellValue::Null, CellValue::Unsupported],
        },
    ];
    let recs = CsvExporter::records(&rows);
    assert_eq!(recs.len(), 3);
    assert_eq!(recs[0], vec!["id", "name", "ok"]);
    assert_eq!(recs[1], vec!["-7", "x", "true"]);
    assert_eq!(recs[2], vec!["", "<unsupported_type>", "<unsupported_type>"]);
    assert!(CsvExporter::records(&vec![]).is_empty());
}

fn log_entry(ts: &str) -> ExecutionLogEntry {
    ExecutionLogEntry {
        timestamp: ts.to_string(),
        server_name: "s".to_string(),
        database_name: "d".to_string(),
        query_source: "q".to_string(),
        rows_affected: 1,
        duration_ms: 2,
        output_file: "f.csv".to_string(),
        status: "success".to_string(),
        error_message: None,
    }
}

#[test]
fn log_entries_are_appended_in_order() {
    let first = CsvExporter::append_log(None, &log_entry("t1"));
    assert_eq!(first.len(), 1);
    let both = CsvExporter::append_log(Some(first), &log_entry("t2"));
    assert_eq!(both.len(), 2);
    assert_eq!(both[0].timestamp, "t1");
    assert_eq!(both[1].timestamp, "t2");
}

#[test]
fn query_sources_are_exclusive() {
    let mut a = args();
    assert!(matches!(QueryRunner::select_source(&a), Err(MustelError::Query(_))));
    a.command = Some("SELECT 1".to_string());
    assert!(matches!(QueryRunner::select_source(&a), Ok(QuerySource::Inline(_))));
    a.input = Some("q.sql".to_string());
    assert!(matches!(QueryRunner::select_source(&a), Err(MustelError::Query(_))));
    let mut b = args();
    b.input = Some("../q.sql".to_string());
    assert!(matches!(QueryRunner::select_source(&b), Err(MustelError::Security(_))));
}

#[test]
fn query_text_and_confirmation() {
    assert!(QueryRunner::check_query_text("   ").is_err());
    assert!(QueryRunner::check_query_text("SELECT 1").is_ok());
    assert!(QueryRunner::confirmation_needed("DELETE FROM t;", false).is_some());
    assert!(QueryRunner::confirmation_needed("DELETE FROM t;", true).is_none());
    assert!(QueryRunner::confirmation_needed("SELECT 1;", false).is_none());
}

#[test]
fn output_names_and_lists() {
    assert_eq!(QueryRunner::output_file_name("srv", "db", "20240101_120000"), "srv_db_20240101_120000.csv");
    assert_eq!(QueryRunner::split_list(" a, b ,c"), vec!["a".to_string(), "b".to_string(), "c".to_string()]);
}

#[test]
fn named_servers_must_be_configured() {
    let configured = vec![server("alpha"), server("beta")];
    let mut a = args();
    a.servers = Some("BETA, alpha".to_string());
    match QueryRunner::select_servers(&a, &configured) {
        Ok(ServerSelection::Chosen(v)) => {
            assert_eq!(v.len(), 2);
            assert_eq!(v[0].name, "beta");
            assert_eq!(v[1].name, "alpha");
        }
        other => panic!("unexpected {:?}", other),
    }
    a.servers = Some("gamma".to_string());
    match QueryRunner::select_servers(&a, &configured) {
        Err(MustelError::Config(m)) => assert_eq!(m, "Server 'gamma' not found in configuration."),
        other => panic!("unexpected {:?}", other),
    }
    assert!(matches!(QueryRunner::select_servers(&args(), &configured), Ok(ServerSelection::Interactive)));
}

#[test]
fn decimal_parsing() {
    assert_eq!(parse_u16("5432"), Some(5432));
    assert_eq!(parse_u16("65535"), Some(65535));
    assert_eq!(parse_u16("65536"), None);
    assert_eq!(parse_u16(""), None);
    assert_eq!(parse_u16("12a"), None);
}

#[test]
fn server_form_checks_fields() {
    let mut form = ServerFormState::new();
    form.name_input = "  ".to_string();
    assert_eq!(form.to_server_entry().unwrap_err(), "O nome da conexão não pode ser vazio.");
    form.name_input = "prod".to_string();
    form.host_input = "".to_string();
    assert_eq!(form.to_server_entry().unwrap_err(), "O host não pode ser vazio.");
    form.host_input = " db.local ".to_string();
    form.port_input = "abc".to_string();
    assert_eq!(form.to_server_entry().unwrap_err(), "Porta inválida (deve ser um número de 1 a 65535).");
    form.port_input = "6000".to_string();
    form.database_input = " ".to_string();
    let e = form.to_server_entry().unwrap();
    assert_eq!(e.host, "db.local");
    assert_eq!(e.port, 6000);
    assert_eq!(e.databases, Some(vec!["postgres".to_string()]));
}

#[test]
fn server_form_round_trip() {
    let mut s = server("orders");
    s.databases = Some(vec!["sales".to_string()]);
    s.password = Some("pw".to_string());
    s.ssl_mode = Some(SslMode::Require);
    let mut form = ServerFormState::new();
    form.load_server(&s);
    let back = form.to_server_entry().unwrap();
    assert_eq!(back.name, "orders");
    assert_eq!(back.host, s.host);
    assert_eq!(back.port, 5432);
    assert_eq!(back.databases, Some(vec!["sales".to_string()]));
    assert_eq!(back.password, Some("pw".to_string()));
    assert_eq!(back.ssl_mode, Some(SslMode::Require));
}

#[test]
fn sidebar_keeps_selection_by_name() {
    let mut bar = ConnectionSidebarState::new(vec![server("a"), server("b")]);
    assert_eq!(bar.selected_server.as_ref().unwrap().name, "a");
    bar.selected_server = Some(server("b"));
    bar.reload_servers(vec![server("c"), server("b")]);
    assert_eq!(bar.selected_server.as_ref().unwrap().name, "b");
    bar.reload_servers(vec![server("d")]);
    assert_eq!(bar.selected_server.as_ref().unwrap().name, "d");
    bar.reload_servers(vec![]);
    assert!(bar.selected_server.is_none());
    let empty = ConnectionSidebarState::new(vec![]);
    assert_eq!(empty.server_list.len(), 1);
    assert_eq!(empty.server_list[0].name, "localhost");
}

#[test]
fn editor_verdicts() {
    let mut ed = SqlEditorState::new();
    assert_eq!(ed.query_type, "ReadOnly");
    ed.update_content("   ".to_string());
    assert_eq!(ed.query_type, "Empty");
    ed.update_content("DROP TABLE x;".to_string());
    assert!(ed.is_destructive);
    assert_eq!(ed.query_type, "DROP");
    assert_eq!(ed.status_text(), "⚠️ ALERTA: Query Destrutiva (DROP)!");
}

#[test]
fn results_title_reflects_state() {
    let mut table = QueryResultTable::new();
    assert_eq!(table.title_text(), "Resultados (1 linhas, 0 ms)");
    table.is_loading = true;
    assert_eq!(table.title_text(), "Resultados (Executando no PostgreSQL...)");
    table.is_loading = false;
    table.error_message = Some("boom".to_string());
    assert_eq!(table.error_text(), Some("❌ Erro no PostgreSQL: boom".to_string()));
    let data = QueryResultData::from_rows(&vec![], 5);
    assert_eq!(data.columns, vec!["status".to_string()]);
}

#[test]
fn app_starts_and_finishes_queries() {
    let mut app = MustelApp::new(vec![server("main")]);
    assert_eq!(app.theme(), ThemeChoice::Dark);
    assert!(app.update(Message::ThemeSelected(ThemeChoice::Dracula)).is_none());
    assert_eq!(app.theme(), ThemeChoice::Dracula);
    assert!(app.update(Message::CodeEdited("SELECT 2".to_string())).is_none());
    let job: QueryJob = app.update(Message::ExecuteQuery).unwrap();
    assert_eq!(job.sql, "SELECT 2");
    assert_eq!(job.server.as_ref().unwrap().name, "main");
    assert!(app.results_table.is_loading);
    app.update(Message::QueryResultReceived(Err("bad".to_string())));
    assert!(!app.results_table.is_loading);
    assert_eq!(app.results_table.error_message.as_deref(), Some("bad"));
    assert!(app.results_table.data.is_some());
    let data = QueryResultData::from_rows(&vec![], 3);
    app.update(Message::QueryResultReceived(Ok(data)));
    assert!(app.results_table.error_message.is_none());
    assert_eq!(app.results_table.data.as_ref().unwrap().execution_time_ms, 3);
    assert_eq!(theme_choices().len(), 8);
}

#[test]
fn query_jobs_plan_their_connection() {
    let none = QueryJob { sql: "SELECT 1".to_string(), server: None };
    assert_eq!(none.plan().unwrap_err(), "Nenhum servidor PostgreSQL configurado ou selecionado.");
    let mut s = server("x");
    assert_eq!(target_database(&s), "postgres");
    s.databases = Some(vec!["sales".to_string(), "hr".to_string()]);
    let job = QueryJob { sql: "SELECT 1".to_string(), server: Some(s) };
    let (srv, db) = job.plan().unwrap();
    assert_eq!(db, "sales");
    assert_eq!(
        connection_failure_message(&srv, &db, "timeout"),
        "Falha na conexão com x.example:5432 (banco 'sales'): timeout"
    );
}

#[test]
fn routes_follow_the_command() {
    assert_eq!(CliApp { command: None }.route(), Route::Help);
    assert_eq!(CliApp { command: Some(Commands::Gui) }.route(), Route::Gui);
    assert_eq!(CliApp { command: Some(Commands::Query { subcommand: None }) }.route(), Route::QueryHelp);
    assert_eq!(
        CliApp { command: Some(Commands::Query { subcommand: Some(QuerySubcommands::Run(args())) }) }.route(),
        Route::QueryRun
    );
    assert_eq!(CliApp { command: Some(Commands::Settings { subcommand: None }) }.route(), Route::SettingsHelp);
    assert_eq!(
        CliApp {
            command: Some(Commands::Settings {
                subcommand: Some(SettingsSubcommands::DbServers { subcommand: Some(DbServersSubcommand::List) })
            })
        }
        .route(),
        Route::DbServers
    );
}

#[test]
fn removing_a_new_server_restores_the_list() {
    let svc = service();
    let mut config = UserConfig::default();
    svc.add_or_update_server(&mut config, server("a"));
    svc.add_or_update_server(&mut config, server("b"));
    let before: Vec<String> = config.servers.iter().map(|s| s.name.clone()).collect();
    svc.add_or_update_server(&mut config, server("c"));
    assert!(svc.remove_server(&mut config, "c"));
    let after: Vec<String> = config.servers.iter().map(|s| s.name.clone()).collect();
    assert_eq!(before, after);
}

#[test]
fn other_servers_are_untouched_by_updates_and_removals() {
    let svc = service();
    let mut config = UserConfig::default();
    let mut a = server("a");
    a.port = 1111;
    svc.add_or_update_server(&mut config, a);
    svc.add_or_update_server(&mut config, server("b"));
    let mut b2 = server("B");
    b2.port = 2222;
    svc.add_or_update_server(&mut config, b2);
    assert_eq!(svc.get_server(&config, "a").unwrap().port, 1111);
    svc.remove_server(&mut config, "b");
    assert_eq!(svc.get_server(&config, "a").unwrap().port, 1111);
    assert!(svc.get_server(&config, "b").is_none());
}

#[test]
fn config_file_modes_open_to_others_are_flagged() {
    assert!(!UserConfigService::insecure_mode(0o600));
    assert!(!UserConfigService::insecure_mode(0o700));
    assert!(UserConfigService::insecure_mode(0o644));
    assert!(UserConfigService::insecure_mode(0o640));
    assert!(UserConfigService::insecure_mode(0o601));
    assert!(!UserConfigService::insecure_mode(0o620));
}

#[test]
fn config_file_existence_follows_the_disk() {
    assert!(!UserConfigService::new("/nonexistent-mustel-dir/mustel.jsonc".to_string()).config_file_exists());
    assert!(UserConfigService::new("/".to_string()).config_file_exists());
}

#[test]
fn tls_required_modes_never_fall_back_to_plaintext() {
    for mode in [SslMode::Require, SslMode::VerifyCa, SslMode::VerifyFull] {
        let mut r = ConnectRetry::new();
        assert_eq!(r.after_tls_failure(Some(mode)), RetryDecision::RetryAfter(500));
        assert_eq!(r.after_tls_failure(Some(mode)), RetryDecision::RetryAfter(1000));
        assert_eq!(r.after_tls_failure(Some(mode)), RetryDecision::GiveUp);
        assert!(ConnectRetry::requires_tls(Some(mode)));
    }
    assert!(!ConnectRetry::requires_tls(Some(SslMode::Allow)));
    assert!(!ConnectRetry::attempts_tls(Some(SslMode::Disable)));
    assert!(ConnectRetry::attempts_tls(None));
}

#[test]
fn connection_strings_give_the_direct_target() {
    let mut a = args();
    a.connection_string = Some("host=db1 port=6543 user=app dbname=sales".to_string());
    let t = QueryRunner::direct_target(&a).unwrap().unwrap();
    assert_eq!(t.server.host, "db1");
    assert_eq!(t.server.port, 6543);
    assert_eq!(t.server.username, "app");
    assert_eq!(t.database, "sales");
    a.connection_string = Some("postgresql://u:pw@h2:7000/d2".to_string());
    let t = QueryRunner::direct_target(&a).unwrap().unwrap();
    assert_eq!((t.server.host.as_str(), t.server.port, t.database.as_str()), ("h2", 7000, "d2"));
    assert_eq!(t.password.as_deref(), Some("pw"));
    a.database = Some("other".to_string());
    a.username = Some("admin".to_string());
    let t = QueryRunner::direct_target(&a).unwrap().unwrap();
    assert_eq!(t.database, "other");
    assert_eq!(t.server.username, "admin");
    a.connection_string = Some("host=x port=notaport".to_string());
    match QueryRunner::direct_target(&a) {
        Err(MustelError::Database(m)) => assert!(m.starts_with("Invalid connection string: ")),
        other => panic!("unexpected {:?}", other),
    }
    assert!(QueryRunner::direct_target(&args()).unwrap().is_none());
}

#[test]
fn parse_connection_string_reads_the_parts() {
    let p = DbConnectionBuilder::parse_connection_string("host=a,b port=1,2 user=u").unwrap();
    assert_eq!(p.hosts, vec!["a".to_string(), "b".to_string()]);
    assert_eq!(p.ports, vec![1, 2]);
    assert_eq!(p.user.as_deref(), Some("u"));
    assert_eq!(p.dbname, None);
}

#[test]
fn failed_runs_are_logged_with_their_error() {
    let mut a = args();
    a.connection_string = Some("host=db1".to_string());
    let t = QueryRunner::direct_target(&a).unwrap().unwrap();
    let e = QueryRunner::failure_log_entry("t".to_string(), &t, "inline query".to_string(), 7, "f.csv".to_string(), "boom".to_string());
    assert_eq!(e.status, "FAILED");
    assert_eq!(e.error_message.as_deref(), Some("boom"));
    assert_eq!(e.rows_affected, 0);
    assert_eq!(e.server_name, "direct");
    assert_eq!(e.database_name, "postgres");
}

#[test]
fn cells_render_readably_and_null_only_for_null() {
    assert_eq!(QueryResultData::from_rows(&vec![RowData {
        columns: vec!["a".to_string(), "b".to_string(), "c".to_string()],
        cells: vec![
            CellValue::Null,
            CellValue::Unsupported,
            CellValue::List(vec![Some("1".to_string()), None, Some("x".to_string())]),
        ],
    }], 0).rows[0], vec!["NULL", "<unsupported_type>", "{1,NULL,x}"]);
    assert_eq!(CsvExporter::csv_cell(&CellValue::List(vec![])), "{}");
}

#[test]
fn empty_results_count_zero_rows() {
    let mut table = QueryResultTable::new();
    table.data = Some(QueryResultData::from_rows(&vec![], 12));
    assert_eq!(table.title_text(), "Resultados (0 linhas, 12 ms)");
    assert_eq!(table.data.as_ref().unwrap().rows.len(), 1);
}

#[test]
fn statement_kinds_follow_the_leading_keywords() {
    assert_eq!(statement_kind("DROP FUNCTION f"), StatementKind::Drop);
    assert_eq!(statement_kind("ALTER INDEX a RENAME TO b"), StatementKind::AlterOther);
    assert_eq!(statement_kind("ALTER TABLE t ADD COLUMN c INT"), StatementKind::AlterTable);
    assert_eq!(statement_kind("CREATE TEMPORARY TABLE t (a INT)"), StatementKind::CreateTable);
    assert_eq!(statement_kind("CREATE DATABASE d"), StatementKind::CreateDatabase);
    assert_eq!(statement_kind("CREATE INDEX i ON t(a)"), StatementKind::Other);
    assert_eq!(statement_kind("SELECT 1"), StatementKind::Other);
}

fn numeric(ndigits: i16, weight: i16, sign: u16, dscale: u16, digits: &[u16]) -> Vec<u8> {
    let mut b = Vec::new();
    for v in [ndigits as u16, weight as u16, sign, dscale] {
        b.extend_from_slice(&v.to_be_bytes());
    }
    for d in digits {
        b.extend_from_slice(&d.to_be_bytes());
    }
    b
}

#[test]
fn numerics_render_as_postgresql_writes_them() {
    let cell = |b: Vec<u8>| CsvExporter::csv_cell(&CellValue::Numeric(b));
    assert_eq!(cell(numeric(2, 0, 0, 2, &[123, 4500])), "123.45");
    assert_eq!(cell(numeric(1, -1, 0, 3, &[10])), "0.001");
    assert_eq!(cell(numeric(1, 1, 0x4000, 0, &[100])), "-1000000");
    assert_eq!(cell(numeric(0, 0, 0, 0, &[])), "0");
    assert_eq!(cell(numeric(0, 0, 0xC000, 0, &[])), "NaN");
    assert_eq!(cell(numeric(1, 0, 0, 0, &[12345])), "<unsupported_type>");
    assert_eq!(cell(vec![0, 1]), "<unsupported_type>");
}
