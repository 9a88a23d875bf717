//! The decisions of `mustel query run`: where the SQL comes from, whether it
//! needs confirmation, where results go and which databases are targeted.
use vstd::prelude::*;

use crate::analyzer::{analysis, parsed_statement_kinds, QueryType, SqlQueryAnalyzer};
use crate::error::{ErrorView, MustelError};
use crate::exporter::{ExecutionLogEntry, LogEntryView};
use crate::models::{ServerConfigEntry, ServerView, UserDefaults};
use crate::security::{path_outcome, SecurityUtils};
use crate::text::{append, clone_opt_string, clone_string, clone_strings, concat3, copy_str, opt_view, split_char, split_seq, str_uppercase, string_views, trim, trim_seq};
use crate::user_config::{find_server, UserConfigService};
use crate::connection::{pg_config_error_text, pg_config_parse, DbConnectionBuilder};

verus! {

/// Options of `mustel query run`.
#[derive(Debug)]
pub struct QueryRunArgs {
    pub input: Option<String>,
    pub command: Option<String>,
    pub output: Option<String>,
    pub connection_string: Option<String>,
    pub servers: Option<String>,
    pub host: Option<String>,
    pub port: Option<u16>,
    pub database: Option<String>,
    pub username: Option<String>,
    pub password: Option<String>,
    pub ssl_mode: Option<String>,
    pub timeout: Option<u64>,
    pub command_timeout: Option<u64>,
    pub all: bool,
    pub exclude: Option<String>,
    pub no_confirm: bool,
}

/// Where the SQL text comes from.
#[derive(Debug)]
pub enum QuerySource {
    Inline(String),
    File(String),
}

/// One database to run the query on.
#[derive(Debug)]
pub struct TargetDb {
    pub server: ServerConfigEntry,
    pub database: String,
    pub password: Option<String>,
}

/// The servers to query: chosen by the options, or to be picked by the user.
#[derive(Debug)]
pub enum ServerSelection {
    Chosen(Vec<ServerConfigEntry>),
    Interactive,
}

pub open spec fn msg_exclusive() -> Seq<char> {
    "Options -c/--command and -i/--input are mutually exclusive. Use only one."@
}

pub open spec fn msg_no_source() -> Seq<char> {
    "Must specify either an inline query (-c) or a SQL file (-i)."@
}

pub open spec fn msg_empty_query() -> Seq<char> {
    "SQL query cannot be empty."@
}

pub open spec fn msg_unknown_server(name: Seq<char>) -> Seq<char> {
    "Server '"@ + name + "' not found in configuration."@
}

/// What a connection string gives: hosts, ports, user, database, password.
pub type ConnParts = (Seq<Seq<char>>, Seq<u16>, Option<Seq<char>>, Option<Seq<char>>, Option<Seq<char>>);

/// The database of a direct connection: `--database`, else the string's, else
/// `postgres`.
pub open spec fn direct_database(args: QueryRunArgs, p: ConnParts) -> Seq<char> {
    match args.database {
        Some(d) => d@,
        None => match p.3 {
            Some(d) => d,
            None => "postgres"@,
        },
    }
}

/// The password of a direct connection: `--password`, else the string's.
pub open spec fn direct_password(args: QueryRunArgs, p: ConnParts) -> Option<Seq<char>> {
    match args.password {
        Some(w) => Some(w@),
        None => p.4,
    }
}

/// The ad-hoc entry for a direct connection string: its first host (else
/// `localhost`) and first port (else 5432); `--username`, else its user, else
/// `postgres`.
pub open spec fn direct_server(args: QueryRunArgs, p: ConnParts) -> ServerView {
    ServerView {
        name: "direct"@,
        host: if p.0.len() > 0 {
            p.0[0]
        } else {
            "localhost"@
        },
        port: if p.1.len() > 0 {
            p.1[0]
        } else {
            5432
        },
        username: match args.username {
            Some(u) => u@,
            None => match p.2 {
                Some(u) => u,
                None => "postgres"@,
            },
        },
        password: direct_password(args, p),
        encrypted_password: None,
        databases: Some(seq![direct_database(args, p)]),
        fetch_all_databases: None,
        exclude_patterns: None,
        ssl_mode: None,
        timeout: args.timeout,
        command_timeout: args.command_timeout,
        max_parallelism: None,
    }
}

/// The ad-hoc entry for `--host`.
pub open spec fn host_server(args: QueryRunArgs, host: Seq<char>) -> ServerView {
    ServerView {
        name: host,
        host: host,
        port: match args.port {
            Some(p) => p,
            None => 5432,
        },
        username: match args.username {
            Some(u) => u@,
            None => "postgres"@,
        },
        password: opt_view(args.password),
        encrypted_password: None,
        databases: match args.database {
            Some(d) => Some(seq![d@]),
            None => None,
        },
        fetch_all_databases: None,
        exclude_patterns: None,
        ssl_mode: None,
        timeout: args.timeout,
        command_timeout: args.command_timeout,
        max_parallelism: None,
    }
}

/// The comma-separated list `s`, each piece trimmed.
pub open spec fn trimmed_list(s: Seq<char>) -> Seq<Seq<char>> {
    split_seq(s, ',').map_values(|p: Seq<char>| trim_seq(p))
}

/// The configured entries named in `names`, in that order, or the first name
/// that is not configured.
pub open spec fn named_servers(configured: Seq<ServerView>, names: Seq<Seq<char>>) -> Result<
    Seq<ServerView>,
    Seq<char>,
>
    decreases names.len(),
{
    if names.len() == 0 {
        Ok(Seq::empty())
    } else {
        match named_servers(configured, names.subrange(0, names.len() - 1)) {
            Err(n) => Err(n),
            Ok(found) => match find_server(configured, names[names.len() - 1]) {
                Some(s) => Ok(found.push(s)),
                None => Err(names[names.len() - 1]),
            },
        }
    }
}

/// The databases listed for a server when they are not discovered: the
/// `--database` override, else the entry's list, else `postgres`.
pub open spec fn listed_databases_spec(args: QueryRunArgs, server: ServerView) -> Seq<Seq<char>> {
    match args.database {
        Some(d) => seq![d@],
        None => match server.databases {
            Some(dbs) => dbs,
            None => seq!["postgres"@],
        },
    }
}

pub open spec fn target_view(t: TargetDb) -> (ServerView, Seq<char>, Option<Seq<char>>) {
    (t.server@, t.database@, opt_view(t.password))
}

pub open spec fn entries_view(v: Seq<ServerConfigEntry>) -> Seq<ServerView> {
    v.map_values(|e: ServerConfigEntry| e@)
}

/// The output file name `<server>_<database>_<timestamp>.csv`.
pub open spec fn output_file_name_spec(server: Seq<char>, database: Seq<char>, timestamp: Seq<char>) -> Seq<
    char,
> {
    server + "_"@ + database + "_"@ + timestamp + ".csv"@
}

fn message(s: &str) -> (r: String)
    ensures
        r@ == s@,
{
    copy_str(s)
}

/// Runs a query across target servers and databases.
pub struct QueryRunner {
    config_service: UserConfigService,
}

impl QueryRunner {
    /// A runner over the given configuration.
    pub fn new(config_service: UserConfigService) -> (r: Self)
        ensures
            r.config_service() == config_service,
    {
        QueryRunner { config_service }
    }

    pub closed spec fn config_service(&self) -> UserConfigService {
        self.config_service
    }

    /// The configuration service the runner reads.
    pub fn config(&self) -> (r: &UserConfigService)
        ensures
            *r == self.config_service(),
    {
        &self.config_service
    }

    /// Where the SQL comes from: `-c` and `-i` exclude each other, one is
    /// needed, and an input path must pass `validate_path`.
    pub fn select_source(args: &QueryRunArgs) -> (r: Result<QuerySource, MustelError>)
        ensures
            match (args.command, args.input) {
                (Some(_), Some(_)) => r matches Err(e) && e@ == ErrorView::Query(msg_exclusive()),
                (None, None) => r matches Err(e) && e@ == ErrorView::Query(msg_no_source()),
                (Some(c), None) => r matches Ok(QuerySource::Inline(s)) && s@ == c@,
                (None, Some(p)) => match r {
                    Ok(QuerySource::File(f)) => f@ == p@ && path_outcome(p@, Ok(())),
                    Ok(QuerySource::Inline(_)) => false,
                    Err(e) => path_outcome(p@, Err(e@)),
                },
            },
    {
        proof {
            reveal_strlit(
                "Options -c/--command and -i/--input are mutually exclusive. Use only one.",
            );
            reveal_strlit("Must specify either an inline query (-c) or a SQL file (-i).");
        }
        match (&args.command, &args.input) {
            (Some(_), Some(_)) => Err(
                MustelError::Query(
                    message(
                        "Options -c/--command and -i/--input are mutually exclusive. Use only one.",
                    ),
                ),
            ),
            (Some(c), None) => Ok(QuerySource::Inline(clone_string(c))),
            (None, Some(p)) => {
                match SecurityUtils::validate_path(p.as_str()) {
                    Ok(()) => Ok(QuerySource::File(clone_string(p))),
                    Err(e) => Err(e),
                }
            },
            (None, None) => Err(
                MustelError::Query(
                    message("Must specify either an inline query (-c) or a SQL file (-i)."),
                ),
            ),
        }
    }

    /// How the source is named in logs and prompts.
    pub fn source_label(source: &QuerySource) -> (r: String)
        ensures
            r@ == match source {
                QuerySource::Inline(_) => "inline query"@,
                QuerySource::File(p) => p@,
            },
    {
        proof {
            reveal_strlit("inline query");
        }
        match source {
            QuerySource::Inline(_) => message("inline query"),
            QuerySource::File(p) => clone_string(p),
        }
    }

    /// Rejects SQL text that is empty or only white space.
    pub fn check_query_text(sql: &str) -> (r: Result<(), MustelError>)
        ensures
            r is Ok <==> trim_seq(sql@).len() > 0,
            r matches Err(e) ==> e@ == ErrorView::Query(msg_empty_query()),
    {
        proof {
            reveal_strlit("SQL query cannot be empty.");
        }
        let t = trim(sql);
        if t.as_str().is_empty() {
            Err(MustelError::Query(message("SQL query cannot be empty.")))
        } else {
            Ok(())
        }
    }

    /// The operation to confirm before running `sql`: its destructive
    /// operation, unless `--no-confirm` was given.
    pub fn confirmation_needed(sql: &str, no_confirm: bool) -> (r: Option<String>)
        ensures
            no_confirm ==> r is None,
            !no_confirm ==> match r {
                Some(op) => analysis(parsed_statement_kinds(sql@), str_uppercase(sql@)) == Some(
                    op@,
                ),
                None => analysis(parsed_statement_kinds(sql@), str_uppercase(sql@)) is None,
            },
    {
        match SqlQueryAnalyzer::analyze(sql) {
            QueryType::Destructive(op) => if no_confirm {
                None
            } else {
                Some(op)
            },
            QueryType::ReadOnly => None,
        }
    }

    /// The output directory: `--output`, else the configured default.
    pub fn output_directory(args: &QueryRunArgs, defaults: &UserDefaults) -> (r: String)
        ensures
            r@ == match args.output {
                Some(o) => o@,
                None => defaults.output_directory@,
            },
    {
        match &args.output {
            Some(o) => clone_string(o),
            None => clone_string(&defaults.output_directory),
        }
    }

    /// The CSV file name for one target and start time.
    pub fn output_file_name(server_name: &str, database: &str, timestamp: &str) -> (r: String)
        ensures
            r@ == output_file_name_spec(server_name@, database@, timestamp@),
    {
        proof {
            reveal_strlit("_");
            reveal_strlit(".csv");
        }
        let mut s = concat3(server_name, "_", database);
        append(&mut s, "_");
        append(&mut s, timestamp);
        append(&mut s, ".csv");
        s
    }

    /// The log entry of a successful run.
    pub fn success_log_entry(
        timestamp: String,
        target: &TargetDb,
        query_source: String,
        rows_affected: u64,
        duration_ms: u128,
        output_file: String,
    ) -> (r: ExecutionLogEntry)
        ensures
            r@ == (LogEntryView {
                timestamp: timestamp@,
                server_name: target.server.name@,
                database_name: target.database@,
                query_source: query_source@,
                rows_affected,
                duration_ms,
                output_file: output_file@,
                status: "SUCCESS"@,
                error_message: None,
            }),
    {
        proof {
            reveal_strlit("SUCCESS");
        }
        ExecutionLogEntry {
            timestamp,
            server_name: clone_string(&target.server.name),
            database_name: clone_string(&target.database),
            query_source,
            rows_affected,
            duration_ms,
            output_file,
            status: message("SUCCESS"),
            error_message: None,
        }
    }

    /// The log entry of a run that failed to connect, query or export: no
    /// rows, status `FAILED` and the error's text.
    pub fn failure_log_entry(
        timestamp: String,
        target: &TargetDb,
        query_source: String,
        duration_ms: u128,
        output_file: String,
        error: String,
    ) -> (r: ExecutionLogEntry)
        ensures
            r@ == (LogEntryView {
                timestamp: timestamp@,
                server_name: target.server.name@,
                database_name: target.database@,
                query_source: query_source@,
                rows_affected: 0,
                duration_ms,
                output_file: output_file@,
                status: "FAILED"@,
                error_message: Some(error@),
            }),
    {
        proof {
            reveal_strlit("FAILED");
        }
        ExecutionLogEntry {
            timestamp,
            server_name: clone_string(&target.server.name),
            database_name: clone_string(&target.database),
            query_source,
            rows_affected: 0,
            duration_ms,
            output_file,
            status: message("FAILED"),
            error_message: Some(error),
        }
    }

    /// With `--connection-string`, the single target it stands for, read
    /// from the string by tokio-postgres; a string it rejects is an error.
    pub fn direct_target(args: &QueryRunArgs) -> (r: Result<Option<TargetDb>, MustelError>)
        ensures
            match args.connection_string {
                None => r matches Ok(None),
                Some(cs) => match pg_config_parse(cs@) {
                    Some(p) => r matches Ok(Some(t)) && t.server@ == direct_server(*args, p)
                        && t.database@ == direct_database(*args, p) && opt_view(t.password)
                        == direct_password(*args, p),
                    None => r matches Err(e) && e@ == ErrorView::Database(
                        "Invalid connection string: "@ + pg_config_error_text(cs@),
                    ),
                },
            },
    {
        proof {
            reveal_strlit("direct");
            reveal_strlit("localhost");
            reveal_strlit("postgres");
        }
        let cs = match &args.connection_string {
            None => {
                return Ok(None);
            },
            Some(cs) => cs,
        };
        let parts = match DbConnectionBuilder::parse_connection_string(cs.as_str()) {
            Ok(p) => p,
            Err(e) => {
                return Err(e);
            },
        };
        let host = if parts.hosts.len() > 0 {
            clone_string(&parts.hosts[0])
        } else {
            message("localhost")
        };
        let port: u16 = if parts.ports.len() > 0 {
            parts.ports[0]
        } else {
            5432
        };
        let username = match &args.username {
            Some(u) => clone_string(u),
            None => match &parts.user {
                Some(u) => clone_string(u),
                None => message("postgres"),
            },
        };
        let database = match &args.database {
            Some(d) => clone_string(d),
            None => match &parts.dbname {
                Some(d) => clone_string(d),
                None => message("postgres"),
            },
        };
        let password = match &args.password {
            Some(w) => Some(clone_string(w)),
            None => clone_opt_string(&parts.password),
        };
        let mut dbs: Vec<String> = Vec::new();
        dbs.push(clone_string(&database));
        assert(string_views(dbs@) =~= seq![database@]);
        let server = ServerConfigEntry {
            name: message("direct"),
            host,
            port,
            username,
            password: clone_opt_string(&password),
            encrypted_password: None,
            databases: Some(dbs),
            fetch_all_databases: None,
            exclude_patterns: None,
            ssl_mode: None,
            timeout: args.timeout,
            command_timeout: args.command_timeout,
            max_parallelism: None,
        };
        Ok(Some(TargetDb { server, database, password }))
    }

    /// A comma-separated option split into trimmed names.
    pub fn split_list(s: &str) -> (r: Vec<String>)
        ensures
            string_views(r@) == trimmed_list(s@),
    {
        let pieces = split_char(s, ',');
        let mut out: Vec<String> = Vec::new();
        let mut i: usize = 0;
        while i < pieces.len()
            invariant
                i <= pieces.len(),
                string_views(pieces@) == split_seq(s@, ','),
                string_views(out@) == trimmed_list(s@).take(i as int),
            decreases pieces.len() - i,
        {
            let t = trim(pieces[i].as_str());
            let ghost before = out@;
            out.push(t);
            assert(string_views(out@) =~= string_views(before).push(trim_seq(pieces@[i as int]@)));
            i += 1;
            assert(string_views(out@) =~= trimmed_list(s@).take(i as int));
        }
        assert(trimmed_list(s@).take(pieces@.len() as int) =~= trimmed_list(s@));
        out
    }

    /// The servers to query: those named by `--servers` (each must be
    /// configured, matched ignoring ASCII case), else the ad-hoc `--host`
    /// entry, else an interactive choice.
    #[verifier::loop_isolation(false)]
    pub fn select_servers(args: &QueryRunArgs, configured: &Vec<ServerConfigEntry>) -> (r: Result<
        ServerSelection,
        MustelError,
    >)
        ensures
            args.servers matches Some(list) ==> match named_servers(
                entries_view(configured@),
                trimmed_list(list@),
            ) {
                Ok(found) => r matches Ok(ServerSelection::Chosen(v)) && entries_view(v@) == found,
                Err(n) => r matches Err(e) && e@ == ErrorView::Config(msg_unknown_server(n)),
            },
            args.servers is None ==> match args.host {
                Some(h) => r matches Ok(ServerSelection::Chosen(v)) && entries_view(v@) == seq![
                    host_server(*args, h@),
                ],
                None => r matches Ok(ServerSelection::Interactive),
            },
    {
        proof {
            reveal_strlit("Server '");
            reveal_strlit("' not found in configuration.");
            reveal_strlit("postgres");
        }
        match &args.servers {
            Some(list) => {
                let names = Self::split_list(list.as_str());
                let ghost cv = entries_view(configured@);
                let ghost nv = string_views(names@);
                let mut matched: Vec<ServerConfigEntry> = Vec::new();
                let mut i: usize = 0;
                assert(nv.subrange(0, 0) =~= Seq::<Seq<char>>::empty());
                assert(entries_view(matched@) =~= Seq::<ServerView>::empty());
                while i < names.len()
                    invariant
                        i <= names.len(),
                        matched@.len() == i,
                        nv == trimmed_list(list@),
                        cv == entries_view(configured@),
                        nv == string_views(names@),
                        named_servers(cv, nv.subrange(0, i as int)) == Ok::<
                            Seq<ServerView>,
                            Seq<char>,
                        >(entries_view(matched@)),
                    decreases names.len() - i,
                {
                    assert(nv.subrange(0, i + 1).subrange(0, i as int) =~= nv.subrange(0, i as int));
                    let found = Self::find_configured(configured, names[i].as_str());
                    match found {
                        Some(s) => {
                            let ghost before = matched@;
                            matched.push(s);
                            assert(entries_view(matched@) =~= entries_view(before).push(
                                matched@[before.len() as int]@,
                            ));
                        },
                        None => {
                            proof {
                                lemma_named_servers_err_extends(cv, nv, i as int + 1);
                            }
                            return Err(
                                MustelError::Config(
                                    concat3(
                                        "Server '",
                                        names[i].as_str(),
                                        "' not found in configuration.",
                                    ),
                                ),
                            );
                        },
                    }
                    i += 1;
                }
                assert(nv.subrange(0, names@.len() as int) =~= nv);
                Ok(ServerSelection::Chosen(matched))
            },
            None => match &args.host {
                Some(h) => {
                    let databases = match &args.database {
                        Some(d) => {
                            let mut v: Vec<String> = Vec::new();
                            v.push(clone_string(d));
                            assert(string_views(v@) =~= seq![d@]);
                            Some(v)
                        },
                        None => None,
                    };
                    let entry = ServerConfigEntry {
                        name: clone_string(h),
                        host: clone_string(h),
                        port: match args.port {
                            Some(p) => p,
                            None => 5432,
                        },
                        username: match &args.username {
                            Some(u) => clone_string(u),
                            None => message("postgres"),
                        },
                        password: clone_opt_string(&args.password),
                        encrypted_password: None,
                        databases,
                        fetch_all_databases: None,
                        exclude_patterns: None,
                        ssl_mode: None,
                        timeout: args.timeout,
                        command_timeout: args.command_timeout,
                        max_parallelism: None,
                    };
                    let mut v: Vec<ServerConfigEntry> = Vec::new();
                    v.push(entry);
                    assert(entries_view(v@) =~= seq![host_server(*args, h@)]);
                    Ok(ServerSelection::Chosen(v))
                },
                None => Ok(ServerSelection::Interactive),
            },
        }
    }

    /// The first configured entry named `name`, ignoring ASCII case.
    fn find_configured(configured: &Vec<ServerConfigEntry>, name: &str) -> (r: Option<
        ServerConfigEntry,
    >)
        ensures
            match r {
                Some(e) => find_server(entries_view(configured@), name@) == Some(e@),
                None => find_server(entries_view(configured@), name@) is None,
            },
    {
        let service = UserConfigService::new(String::new());
        let config = crate::models::UserConfig {
            servers: crate::models::duplicate_servers(configured),
            defaults: UserDefaults::default(),
        };
        assert(config@.servers =~= entries_view(configured@));
        service.get_server(&config, name)
    }

    /// `--exclude` split into trimmed patterns.
    pub fn extra_excludes(args: &QueryRunArgs) -> (r: Option<Vec<String>>)
        ensures
            match args.exclude {
                Some(x) => r matches Some(v) && string_views(v@) == trimmed_list(x@),
                None => r is None,
            },
    {
        match &args.exclude {
            Some(x) => Some(Self::split_list(x.as_str())),
            None => None,
        }
    }

    /// Whether all databases of `server` are discovered: `--all`, or the
    /// entry's `fetchAllDatabases`.
    pub fn fetches_all_databases(args: &QueryRunArgs, server: &ServerConfigEntry) -> (r: bool)
        ensures
            r == (args.all || server.fetch_all_databases == Some(true)),
    {
        args.all || match server.fetch_all_databases {
            Some(b) => b,
            None => false,
        }
    }

    /// The databases of `server` when they are not discovered.
    pub fn listed_databases(args: &QueryRunArgs, server: &ServerConfigEntry) -> (r: Vec<String>)
        ensures
            string_views(r@) == listed_databases_spec(*args, server@),
            args.database matches Some(d) ==> r@.len() == 1 && r@[0]@ == d@,
    {
        proof {
            reveal_strlit("postgres");
        }
        match &args.database {
            Some(d) => {
                let mut v: Vec<String> = Vec::new();
                v.push(clone_string(d));
                assert(string_views(v@) =~= seq![d@]);
                v
            },
            None => match &server.databases {
                Some(dbs) => clone_strings(dbs),
                None => {
                    let mut v: Vec<String> = Vec::new();
                    v.push(message("postgres"));
                    assert(string_views(v@) =~= seq!["postgres"@]);
                    v
                },
            },
        }
    }

    /// One target per database of `server`, in order, all with `password`.
    pub fn targets_for(server: &ServerConfigEntry, databases: &Vec<String>, password: &Option<String>) -> (r:
        Vec<TargetDb>)
        ensures
            r@.len() == databases@.len(),
            forall|i: int|
                0 <= i < r@.len() ==> #[trigger] target_view(r@[i]) == (
                    server@,
                    databases@[i]@,
                    opt_view(*password),
                ),
    {
        let mut out: Vec<TargetDb> = Vec::new();
        let mut i: usize = 0;
        while i < databases.len()
            invariant
                i <= databases.len(),
                out@.len() == i,
                forall|j: int|
                    0 <= j < i ==> #[trigger] target_view(out@[j]) == (
                        server@,
                        databases@[j]@,
                        opt_view(*password),
                    ),
            decreases databases.len() - i,
        {
            out.push(
                TargetDb {
                    server: server.duplicate(),
                    database: clone_string(&databases[i]),
                    password: clone_opt_string(password),
                },
            );
            i += 1;
        }
        out
    }
}

proof fn lemma_named_servers_err_extends(cv: Seq<ServerView>, nv: Seq<Seq<char>>, k: int)
    requires
        1 <= k <= nv.len(),
        named_servers(cv, nv.subrange(0, k - 1)) is Ok,
        find_server(cv, nv[k - 1]) is None,
    ensures
        named_servers(cv, nv) == Err::<Seq<ServerView>, Seq<char>>(nv[k - 1]),
    decreases nv.len() - k,
{
    assert(nv.subrange(0, k).subrange(0, k - 1) =~= nv.subrange(0, k - 1));
    assert(named_servers(cv, nv.subrange(0, k)) == Err::<Seq<ServerView>, Seq<char>>(nv[k - 1]));
    lemma_named_servers_err_stays(cv, nv, k);
}

proof fn lemma_named_servers_err_stays(cv: Seq<ServerView>, nv: Seq<Seq<char>>, k: int)
    requires
        1 <= k <= nv.len(),
        named_servers(cv, nv.subrange(0, k)) == Err::<Seq<ServerView>, Seq<char>>(nv[k - 1]),
    ensures
        named_servers(cv, nv) == Err::<Seq<ServerView>, Seq<char>>(nv[k - 1]),
    decreases nv.len() - k,
{
    if k == nv.len() {
        assert(nv.subrange(0, k) =~= nv);
    } else {
        assert(nv.subrange(0, k + 1).subrange(0, k) =~= nv.subrange(0, k));
        assert(named_servers(cv, nv.subrange(0, k + 1)) == Err::<Seq<ServerView>, Seq<char>>(
            nv[k - 1],
        ));
        lemma_named_servers_err_stays_gen(cv, nv, k + 1, nv[k - 1]);
    }
}

proof fn lemma_named_servers_err_stays_gen(
    cv: Seq<ServerView>,
    nv: Seq<Seq<char>>,
    k: int,
    n: Seq<char>,
)
    requires
        1 <= k <= nv.len(),
        named_servers(cv, nv.subrange(0, k)) == Err::<Seq<ServerView>, Seq<char>>(n),
    ensures
        named_servers(cv, nv) == Err::<Seq<ServerView>, Seq<char>>(n),
    decreases nv.len() - k,
{
    if k == nv.len() {
        assert(nv.subrange(0, k) =~= nv);
    } else {
        assert(nv.subrange(0, k + 1).subrange(0, k) =~= nv.subrange(0, k));
        lemma_named_servers_err_stays_gen(cv, nv, k + 1, n);
    }
}

/// `--database` overrides every server's own list: the query runs on that
/// database alone. Without it, a server's list is used as it stands, and a
/// server listing none gets `postgres`.
pub proof fn lemma_database_override_wins(args: QueryRunArgs, server: ServerView)
    ensures
        args.database matches Some(d) ==> listed_databases_spec(args, server) =~= seq![d@],
        args.database is None ==> (server.databases matches Some(dbs) ==> listed_databases_spec(
            args,
            server,
        ) == dbs),
        args.database is None && server.databases is None ==> listed_databases_spec(args, server)
            =~= seq!["postgres"@],
        listed_databases_spec(args, server).len() == 0 ==> (args.database is None && (
        server.databases matches Some(dbs) && dbs.len() == 0)),
{
}

} // verus!
