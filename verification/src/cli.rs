//! The command line: its commands and options.
use vstd::prelude::*;

use crate::db_servers::DbServersSubcommand;
use crate::query_runner::QueryRunArgs;

verus! {

/// Mustel - Personal CLI toolkit for database management, query execution, and automation.
#[derive(Debug)]
pub struct CliApp {
    pub command: Option<Commands>,
}

/// Top-level commands.
#[derive(Debug)]
pub enum Commands {
    /// Execute SQL queries and export results to CSV.
    Query { subcommand: Option<QuerySubcommands> },
    /// Manage Mustel settings and server configurations.
    Settings { subcommand: Option<SettingsSubcommands> },
    /// Open the desktop interface.
    Gui,
}

/// Subcommands of `query`.
#[derive(Debug)]
pub enum QuerySubcommands {
    /// Execute a SQL query across target servers/databases and export to CSV.
    Run(QueryRunArgs),
}

/// Subcommands of `settings`.
#[derive(Debug)]
pub enum SettingsSubcommands {
    /// Manage configured database servers.
    DbServers { subcommand: Option<DbServersSubcommand> },
}

/// What a command line asks for.
#[derive(Debug, PartialEq, Eq, Structural)]
pub enum Route {
    /// No command: print the general help.
    Help,
    /// `query` without a subcommand: list its subcommands.
    QueryHelp,
    /// `query run`.
    QueryRun,
    /// `settings` without a subcommand: list its subcommands.
    SettingsHelp,
    /// `settings db-servers`.
    DbServers,
    /// `gui`: the desktop interface.
    Gui,
}

pub open spec fn route_of(app: CliApp) -> Route {
    match app.command {
        None => Route::Help,
        Some(Commands::Query { subcommand: None }) => Route::QueryHelp,
        Some(Commands::Query { subcommand: Some(_) }) => Route::QueryRun,
        Some(Commands::Settings { subcommand: None }) => Route::SettingsHelp,
        Some(Commands::Settings { subcommand: Some(_) }) => Route::DbServers,
        Some(Commands::Gui) => Route::Gui,
    }
}

impl CliApp {
    /// Which handler the command line goes to.
    pub fn route(&self) -> (r: Route)
        ensures
            r == route_of(*self),
    {
        match &self.command {
            None => Route::Help,
            Some(Commands::Query { subcommand: None }) => Route::QueryHelp,
            Some(Commands::Query { subcommand: Some(_) }) => Route::QueryRun,
            Some(Commands::Settings { subcommand: None }) => Route::SettingsHelp,
            Some(Commands::Settings { subcommand: Some(_) }) => Route::DbServers,
            Some(Commands::Gui) => Route::Gui,
        }
    }
}

} // verus!
