//! The `settings db-servers` subcommands.
use vstd::prelude::*;

use crate::error::{ErrorView, MustelError};
use crate::models::{ServerConfigEntry, ServerView};
use crate::text::{concat3, opt_view, string_views};
use crate::user_config::UserConfigService;

verus! {

/// Subcommands of `settings db-servers`.
#[derive(Debug)]
pub enum DbServersSubcommand {
    /// List all configured database servers.
    List,
    /// Add or update a database server configuration.
    Add {
        name: String,
        host: String,
        port: u16,
        username: String,
        database: Option<String>,
        password: Option<String>,
    },
    /// Remove a database server configuration.
    Remove { name: String },
    /// Test connection to a database server.
    Test { name: String },
    /// Securely set/encrypt password for a database server.
    SetPassword { name: String },
}

/// How a server's password is kept.
#[derive(Debug, PartialEq, Eq, Structural)]
pub enum PasswordStatus {
    Encrypted,
    Plaintext,
    NoPassword,
}

pub open spec fn password_status_spec(s: ServerView) -> PasswordStatus {
    if s.encrypted_password is Some {
        PasswordStatus::Encrypted
    } else if s.password is Some {
        PasswordStatus::Plaintext
    } else {
        PasswordStatus::NoPassword
    }
}

/// The entry `add` stores.
pub open spec fn added_server(
    name: Seq<char>,
    host: Seq<char>,
    port: u16,
    username: Seq<char>,
    database: Option<Seq<char>>,
    password: Option<Seq<char>>,
) -> ServerView {
    ServerView {
        name,
        host,
        port,
        username,
        password,
        encrypted_password: None,
        databases: match database {
            Some(d) => Some(seq![d]),
            None => None,
        },
        fetch_all_databases: None,
        exclude_patterns: None,
        ssl_mode: None,
        timeout: Some(30),
        command_timeout: Some(300),
        max_parallelism: Some(4),
    }
}

pub open spec fn msg_server_missing(name: Seq<char>) -> Seq<char> {
    "Server '"@ + name + "' not found."@
}

/// Handles `settings db-servers`.
pub struct DbServersHandler {
    config_service: UserConfigService,
}

impl DbServersHandler {
    /// A handler over the given configuration.
    pub fn new(config_service: UserConfigService) -> (r: Self)
        ensures
            r.config_service() == config_service,
    {
        DbServersHandler { config_service }
    }

    pub closed spec fn config_service(&self) -> UserConfigService {
        self.config_service
    }

    /// The configuration service the handler updates.
    pub fn config(&self) -> (r: &UserConfigService)
        ensures
            *r == self.config_service(),
    {
        &self.config_service
    }

    /// The entry stored by `add`: 30 s connect timeout, 300 s command
    /// timeout, parallelism 4, the database (if given) as its only database.
    pub fn server_entry(
        name: String,
        host: String,
        port: u16,
        username: String,
        database: Option<String>,
        password: Option<String>,
    ) -> (r: ServerConfigEntry)
        ensures
            r.databases is Some <==> database is Some,
            database matches Some(d) ==> (r.databases matches Some(v) && v@.len() == 1 && v@[0]@
                == d@),
            r@ == added_server(
                name@,
                host@,
                port,
                username@,
                opt_view(database),
                opt_view(password),
            ),
    {
        let databases = match database {
            Some(d) => {
                let ghost dv = d@;
                let mut v: Vec<String> = Vec::new();
                v.push(d);
                assert(string_views(v@) =~= seq![dv]);
                Some(v)
            },
            None => None,
        };
        ServerConfigEntry {
            name,
            host,
            port,
            username,
            password,
            encrypted_password: None,
            databases,
            fetch_all_databases: None,
            exclude_patterns: None,
            ssl_mode: None,
            timeout: Some(30),
            command_timeout: Some(300),
            max_parallelism: Some(4),
        }
    }

    /// How the entry's password is kept, as `list` shows it.
    pub fn password_status(s: &ServerConfigEntry) -> (r: PasswordStatus)
        ensures
            r == password_status_spec(s@),
    {
        if s.encrypted_password.is_some() {
            PasswordStatus::Encrypted
        } else if s.password.is_some() {
            PasswordStatus::Plaintext
        } else {
            PasswordStatus::NoPassword
        }
    }

    /// The error for a server name that is not configured.
    pub fn server_missing(name: &str) -> (e: MustelError)
        ensures
            e@ == ErrorView::Config(msg_server_missing(name@)),
    {
        proof {
            reveal_strlit("Server '");
            reveal_strlit("' not found.");
        }
        MustelError::Config(concat3("Server '", name, "' not found."))
    }
}

/// The entry `add` stores is made of what was given: its name, host, port,
/// user and password are the arguments, its database list holds exactly the
/// given database (and is absent when none was given), no encrypted password
/// is kept, and the timeouts and parallelism get their defaults.
pub proof fn lemma_added_server_keeps_arguments(
    name: Seq<char>,
    host: Seq<char>,
    port: u16,
    username: Seq<char>,
    database: Option<Seq<char>>,
    password: Option<Seq<char>>,
)
    ensures
        ({
            let e = added_server(name, host, port, username, database, password);
            &&& e.name == name && e.host == host && e.port == port && e.username == username
            &&& e.password == password && e.encrypted_password is None
            &&& (e.databases is Some <==> database is Some)
            &&& (database matches Some(d) ==> e.databases matches Some(l) && l.len() == 1 && l[0]
                == d)
            &&& e.timeout == Some(30u64) && e.command_timeout == Some(300u64)
                && e.max_parallelism == Some(4usize)
        }),
{
}

} // verus!
