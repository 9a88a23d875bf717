//! The desktop interface's state machine: messages in, state and query jobs out.
use vstd::prelude::*;

use crate::editor::{editor_verdict, SqlEditorState};
use crate::models::{servers_view, ServerConfigEntry, ServerView};
use crate::results::{opt_result_view, QueryResultData, QueryResultTable, ResultView};
use crate::sidebar::{local_server, opt_server_view, ConnectionSidebarState};
use crate::text::{append, clone_string, concat2, decimal, decimal_string};

verus! {

/// The colour themes offered by the theme picker.
#[derive(Clone, Copy, Debug, PartialEq, Eq, Structural)]
pub enum ThemeChoice {
    Dark,
    Light,
    TokyoNight,
    Dracula,
    GruvboxDark,
    GruvboxLight,
    SolarizedDark,
    SolarizedLight,
}

/// The picker's entries, in the order shown.
pub fn theme_choices() -> (r: Vec<ThemeChoice>)
    ensures
        r@ == seq![
            ThemeChoice::Dark,
            ThemeChoice::Light,
            ThemeChoice::TokyoNight,
            ThemeChoice::Dracula,
            ThemeChoice::GruvboxDark,
            ThemeChoice::GruvboxLight,
            ThemeChoice::SolarizedDark,
            ThemeChoice::SolarizedLight,
        ],
{
    let mut v: Vec<ThemeChoice> = Vec::new();
    v.push(ThemeChoice::Dark);
    v.push(ThemeChoice::Light);
    v.push(ThemeChoice::TokyoNight);
    v.push(ThemeChoice::Dracula);
    v.push(ThemeChoice::GruvboxDark);
    v.push(ThemeChoice::GruvboxLight);
    v.push(ThemeChoice::SolarizedDark);
    v.push(ThemeChoice::SolarizedLight);
    v
}

/// What the interface reacts to. An edit carries the editor's text after it.
#[derive(Debug)]
pub enum Message {
    ThemeSelected(ThemeChoice),
    CodeEdited(String),
    ExecuteQuery,
    QueryResultReceived(Result<QueryResultData, String>),
    SelectServer(ServerConfigEntry),
}

/// A query to run in the background: the editor's text on the selected server.
#[derive(Debug)]
pub struct QueryJob {
    pub sql: String,
    pub server: Option<ServerConfigEntry>,
}

/// The whole interface: theme, connection list, editor and result panel.
#[derive(Debug)]
pub struct MustelApp {
    pub theme: ThemeChoice,
    pub sidebar: ConnectionSidebarState,
    pub editor: SqlEditorState,
    pub results_table: QueryResultTable,
}

/// What the result panel shows.
pub ghost struct TableView {
    pub data: Option<ResultView>,
    pub is_loading: bool,
    pub error_message: Option<Seq<char>>,
}

pub open spec fn table_view(t: QueryResultTable) -> TableView {
    TableView {
        data: opt_result_view(t.data),
        is_loading: t.is_loading,
        error_message: match t.error_message {
            Some(e) => Some(e@),
            None => None,
        },
    }
}

/// The panel once a query starts: loading, the rest kept.
pub open spec fn start_loading(t: TableView) -> TableView {
    TableView { is_loading: true, ..t }
}

/// The panel once a result arrives: no longer loading; new data clears the
/// error, an error is shown over the data kept from before.
pub open spec fn receive_result(t: TableView, r: Result<ResultView, Seq<char>>) -> TableView {
    match r {
        Ok(d) => TableView { data: Some(d), is_loading: false, error_message: None },
        Err(e) => TableView { data: t.data, is_loading: false, error_message: Some(e) },
    }
}

pub open spec fn result_view(r: Result<QueryResultData, String>) -> Result<ResultView, Seq<char>> {
    match r {
        Ok(d) => Ok(d@),
        Err(e) => Err(e@),
    }
}

/// The database a job connects to: the server's first listed database, else
/// `postgres`.
pub open spec fn target_database_spec(s: ServerView) -> Seq<char> {
    match s.databases {
        Some(d) => if d.len() > 0 {
            d[0]
        } else {
            "postgres"@
        },
        None => "postgres"@,
    }
}

pub open spec fn no_server_message() -> Seq<char> {
    "Nenhum servidor PostgreSQL configurado ou selecionado."@
}

pub open spec fn connection_failure_spec(s: ServerView, db: Seq<char>, e: Seq<char>) -> Seq<char> {
    "Falha na conexão com "@ + s.host + ":"@ + decimal(s.port as nat) + " (banco '"@ + db
        + "'): "@ + e
}

impl MustelApp {
    /// The interface as it opens over the configured servers: dark theme,
    /// the sample query, the placeholder result.
    pub fn new(configured: Vec<ServerConfigEntry>) -> (r: Self)
        ensures
            r.theme == ThemeChoice::Dark,
            servers_view(r.sidebar.server_list@) == if configured@.len() == 0 {
                seq![local_server()]
            } else {
                servers_view(configured@)
            },
            opt_server_view(r.sidebar.selected_server) == Some(servers_view(r.sidebar.server_list@)[0]),
            r.editor.text@ == "SELECT 1 as id, 'PostgreSQL' as name;"@,
            !r.editor.is_destructive,
            r.editor.query_type@ == "ReadOnly"@,
            table_view(r.results_table) == (TableView {
                data: Some(ResultView {
                    columns: seq!["id"@, "name"@, "status"@],
                    rows: seq![seq!["1"@, "PostgreSQL Local"@, "Pronto para executar"@]],
                    execution_time_ms: 0,
                    returned_rows: 1,
                }),
                is_loading: false,
                error_message: None,
            }),
    {
        MustelApp {
            theme: ThemeChoice::Dark,
            sidebar: ConnectionSidebarState::new(configured),
            editor: SqlEditorState::new(),
            results_table: QueryResultTable::new(),
        }
    }

    /// The current theme.
    pub fn theme(&self) -> (r: ThemeChoice)
        ensures
            r == self.theme,
    {
        self.theme
    }

    /// Applies a message. Starting a query marks the panel as loading and
    /// hands back the job to run; every other message hands back none.
    pub fn update(&mut self, message: Message) -> (job: Option<QueryJob>)
        ensures
            match message {
                Message::ThemeSelected(t) => {
                    &&& job is None
                    &&& final(self).theme == t
                    &&& final(self).sidebar == old(self).sidebar
                    &&& final(self).editor == old(self).editor
                    &&& final(self).results_table == old(self).results_table
                },
                Message::CodeEdited(text) => {
                    &&& job is None
                    &&& final(self).theme == old(self).theme
                    &&& final(self).sidebar == old(self).sidebar
                    &&& final(self).editor.text@ == text@
                    &&& (final(self).editor.is_destructive, final(self).editor.query_type@)
                        == editor_verdict(text@)
                    &&& final(self).results_table == old(self).results_table
                },
                Message::SelectServer(server) => {
                    &&& job is None
                    &&& final(self).theme == old(self).theme
                    &&& final(self).sidebar.selected_server == Some(server)
                    &&& final(self).sidebar.server_list == old(self).sidebar.server_list
                    &&& final(self).editor == old(self).editor
                    &&& final(self).results_table == old(self).results_table
                },
                Message::ExecuteQuery => {
                    &&& job matches Some(j) && j.sql@ == old(self).editor.text@
                        && opt_server_view(j.server) == opt_server_view(
                        old(self).sidebar.selected_server,
                    )
                    &&& final(self).theme == old(self).theme
                    &&& final(self).sidebar == old(self).sidebar
                    &&& final(self).editor == old(self).editor
                    &&& table_view(final(self).results_table) == start_loading(
                        table_view(old(self).results_table),
                    )
                },
                Message::QueryResultReceived(result) => {
                    &&& job is None
                    &&& final(self).theme == old(self).theme
                    &&& final(self).sidebar == old(self).sidebar
                    &&& final(self).editor == old(self).editor
                    &&& table_view(final(self).results_table) == receive_result(
                        table_view(old(self).results_table),
                        result_view(result),
                    )
                },
            },
    {
        match message {
            Message::ThemeSelected(t) => {
                self.theme = t;
                None
            },
            Message::CodeEdited(text) => {
                self.editor.update_content(text);
                None
            },
            Message::SelectServer(server) => {
                self.sidebar.selected_server = Some(server);
                None
            },
            Message::ExecuteQuery => {
                self.results_table.is_loading = true;
                let sql = clone_string(&self.editor.text);
                let server = match &self.sidebar.selected_server {
                    Some(s) => Some(s.duplicate()),
                    None => None,
                };
                Some(QueryJob { sql, server })
            },
            Message::QueryResultReceived(result) => {
                self.results_table.is_loading = false;
                match result {
                    Ok(data) => {
                        self.results_table.data = Some(data);
                        self.results_table.error_message = None;
                    },
                    Err(err) => {
                        self.results_table.error_message = Some(err);
                    },
                }
                None
            },
        }
    }
}

impl QueryJob {
    /// Where the job connects: the server and database, or the message shown
    /// when no server is selected.
    pub fn plan(&self) -> (r: Result<(ServerConfigEntry, String), String>)
        ensures
            match self.server {
                Some(s) => r matches Ok((e, db)) && e@ == s@ && db@ == target_database_spec(s@),
                None => r matches Err(m) && m@ == no_server_message(),
            },
    {
        match &self.server {
            Some(s) => {
                let db = target_database(s);
                Ok((s.duplicate(), db))
            },
            None => {
                proof {
                    reveal_strlit("Nenhum servidor PostgreSQL configurado ou selecionado.");
                }
                Err(String::from_str("Nenhum servidor PostgreSQL configurado ou selecionado."))
            },
        }
    }
}

/// The database a query on `server` connects to.
pub fn target_database(server: &ServerConfigEntry) -> (r: String)
    ensures
        r@ == target_database_spec(server@),
{
    proof {
        reveal_strlit("postgres");
    }
    match &server.databases {
        Some(d) => {
            if d.len() > 0 {
                clone_string(&d[0])
            } else {
                String::from_str("postgres")
            }
        },
        None => String::from_str("postgres"),
    }
}

/// The message for a query that the server refused.
pub fn query_failure_message(e: &str) -> (r: String)
    ensures
        r@ == "Erro ao executar query no PostgreSQL: "@ + e@,
{
    concat2("Erro ao executar query no PostgreSQL: ", e)
}

/// The message for a connection that could not be made.
pub fn connection_failure_message(server: &ServerConfigEntry, db: &str, e: &str) -> (r: String)
    ensures
        r@ == connection_failure_spec(server@, db@, e@),
{
    let mut s = concat2("Falha na conexão com ", server.host.as_str());
    append(&mut s, ":");
    let p = decimal_string(server.port as u128);
    append(&mut s, p.as_str());
    append(&mut s, " (banco '");
    append(&mut s, db);
    append(&mut s, "'): ");
    append(&mut s, e);
    s
}

/// The message for a background task that did not finish.
pub fn task_failure_message(e: &str) -> (r: String)
    ensures
        r@ == "Erro de execução assíncrona: "@ + e@,
{
    concat2("Erro de execução assíncrona: ", e)
}

/// A result that arrives after a query started always ends the loading state.
pub proof fn lemma_result_ends_loading(t: TableView, r: Result<ResultView, Seq<char>>)
    ensures
        !receive_result(start_loading(t), r).is_loading,
{
}

/// A failed query keeps the data shown before it and shows the error; a
/// successful one shows its data and clears any earlier error.
pub proof fn lemma_result_replaces_or_keeps(t: TableView, r: Result<ResultView, Seq<char>>)
    ensures
        match r {
            Ok(d) => receive_result(t, r).data == Some(d) && receive_result(t, r).error_message
                is None,
            Err(e) => receive_result(t, r).data == t.data && receive_result(t, r).error_message
                == Some(e),
        },
{
}

} // verus!
