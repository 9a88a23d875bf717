//! The connection settings derived from a server entry.
use vstd::prelude::*;

use crate::credential_store::{decryption, CredentialStore};
use crate::error::{ErrorView, MustelError};
use crate::models::{ServerConfigEntry, ServerView};
use crate::text::{clone_string, concat2, copy_str, string_views};

verus! {

/// What tokio-postgres reads from a connection string (`Config::from_str`):
/// hosts, ports, user, database name and password, or `None` when it rejects
/// the string.
pub uninterp spec fn pg_config_parse(s: Seq<char>) -> Option<
    (Seq<Seq<char>>, Seq<u16>, Option<Seq<char>>, Option<Seq<char>>, Option<Seq<char>>),
>;

/// The text of the error tokio-postgres gives for a rejected connection string.
pub uninterp spec fn pg_config_error_text(s: Seq<char>) -> Seq<char>;

/// The parts of a connection string that a connection is made from.
#[derive(Debug)]
pub struct ConnectionStringParts {
    pub hosts: Vec<String>,
    pub ports: Vec<u16>,
    pub user: Option<String>,
    pub dbname: Option<String>,
    pub password: Option<String>,
}

impl View for ConnectionStringParts {
    type V = (Seq<Seq<char>>, Seq<u16>, Option<Seq<char>>, Option<Seq<char>>, Option<Seq<char>>);

    open spec fn view(&self) -> Self::V {
        (
            string_views(self.hosts@),
            self.ports@,
            crate::text::opt_view(self.user),
            crate::text::opt_view(self.dbname),
            crate::text::opt_view(self.password),
        )
    }
}

/// tokio-postgres: `Config::from_str` (key/value or URL form), then its hosts
/// (a Unix socket directory as its path text), ports, user, database name and
/// password. The grammar is tokio-postgres's own; its answer is named.
#[verifier::external_body]
fn pg_config_from_str(s: &str) -> (r: Result<ConnectionStringParts, String>)
    ensures
        r is Ok <==> pg_config_parse(s@) is Some,
        r matches Ok(c) ==> pg_config_parse(s@) == Some(c@),
        r matches Err(m) ==> m@ == pg_config_error_text(s@),
{
    let c = s.parse::<tokio_postgres::Config>().map_err(|e| e.to_string())?;
    let hosts = c.get_hosts().iter().map(|h| match h {
        tokio_postgres::config::Host::Tcp(t) => t.clone(),
        tokio_postgres::config::Host::Unix(p) => p.to_string_lossy().into_owned(),
    }).collect();
    let password = c.get_password().map(|p| String::from_utf8_lossy(p).into_owned());
    let (user, dbname) = (c.get_user().map(String::from), c.get_dbname().map(String::from));
    Ok(ConnectionStringParts { hosts, ports: c.get_ports().to_vec(), user, dbname, password })
}

/// What a PostgreSQL connection is opened with.
#[derive(Debug)]
pub struct ConnectionSettings {
    pub host: String,
    pub port: u16,
    pub user: String,
    pub dbname: String,
    pub password: Option<String>,
    pub connect_timeout_secs: u64,
}

/// The database to connect to: the override, else the entry's first
/// database, else `postgres`.
pub open spec fn database_choice(server: ServerView, database_override: Option<Seq<char>>) -> Seq<
    char,
> {
    match database_override {
        Some(d) => d,
        None => match server.databases {
            Some(dbs) => if dbs.len() > 0 {
                dbs[0]
            } else {
                "postgres"@
            },
            None => "postgres"@,
        },
    }
}

/// The password to connect with: the override, else the entry's plaintext
/// password, else its decrypted password, else none.
pub open spec fn password_choice(
    server: ServerView,
    password_override: Option<Seq<char>>,
    key: Seq<u8>,
) -> Result<Option<Seq<char>>, ErrorView> {
    match password_override {
        Some(p) => Ok(Some(p)),
        None => match server.password {
            Some(p) => Ok(Some(p)),
            None => match server.encrypted_password {
                Some(enc) => match decryption(key, enc) {
                    Ok(p) => Ok(Some(p)),
                    Err(e) => Err(e),
                },
                None => Ok(None),
            },
        },
    }
}

/// The connect timeout in seconds: the entry's, else 30.
pub open spec fn timeout_choice(server: ServerView) -> u64 {
    match server.timeout {
        Some(t) => t,
        None => 30,
    }
}

/// Builds connection settings for server entries.
pub struct DbConnectionBuilder;

impl DbConnectionBuilder {
    /// The settings for connecting to `server`, with the optional database
    /// and password overrides; an encrypted password is decrypted with `store`.
    pub fn build_config(
        server: &ServerConfigEntry,
        database_override: Option<&str>,
        password_override: Option<&str>,
        store: &CredentialStore,
    ) -> (r: Result<ConnectionSettings, MustelError>)
        requires
            store.wf(),
        ensures
            ({
                let pw = password_choice(
                    server@,
                    match password_override {
                        Some(p) => Some(p@),
                        None => None,
                    },
                    store.key(),
                );
                match r {
                    Ok(c) => pw == Ok::<Option<Seq<char>>, ErrorView>(
                        crate::text::opt_view(c.password),
                    ) && c.host@ == server.host@ && c.port == server.port && c.user@
                        == server.username@ && c.dbname@ == database_choice(
                        server@,
                        match database_override {
                            Some(d) => Some(d@),
                            None => None,
                        },
                    ) && c.connect_timeout_secs == timeout_choice(server@),
                    Err(e) => pw == Err::<Option<Seq<char>>, ErrorView>(e@),
                }
            }),
    {
        proof {
            reveal_strlit("postgres");
        }
        let dbname = match database_override {
            Some(d) => copy_str(d),
            None => match &server.databases {
                Some(dbs) => if dbs.len() > 0 {
                    clone_string(&dbs[0])
                } else {
                    String::from_str("postgres")
                },
                None => String::from_str("postgres"),
            },
        };
        let password = match password_override {
            Some(p) => Some(copy_str(p)),
            None => match &server.password {
                Some(p) => Some(clone_string(p)),
                None => match &server.encrypted_password {
                    Some(enc) => match store.decrypt_password(enc.as_str()) {
                        Ok(p) => Some(p),
                        Err(e) => {
                            return Err(e);
                        },
                    },
                    None => None,
                },
            },
        };
        let connect_timeout_secs = match server.timeout {
            Some(t) => t,
            None => 30,
        };
        Ok(
            ConnectionSettings {
                host: clone_string(&server.host),
                port: server.port,
                user: clone_string(&server.username),
                dbname,
                password,
                connect_timeout_secs,
            },
        )
    }

    /// Parses a libpq connection string (`key=value` pairs or a
    /// `postgresql://` URL) with tokio-postgres.
    pub fn parse_connection_string(conn_str: &str) -> (r: Result<ConnectionStringParts, MustelError>)
        ensures
            r is Ok <==> pg_config_parse(conn_str@) is Some,
            r matches Ok(c) ==> pg_config_parse(conn_str@) == Some(c@),
            r matches Err(e) ==> e@ == ErrorView::Database(
                "Invalid connection string: "@ + pg_config_error_text(conn_str@),
            ),
    {
        match pg_config_from_str(conn_str) {
            Ok(c) => Ok(c),
            Err(m) => {
                proof {
                    reveal_strlit("Invalid connection string: ");
                }
                Err(MustelError::Database(concat2("Invalid connection string: ", m.as_str())))
            },
        }
    }

    /// Whether a connection to `server` needs the machine key: only when its
    /// stored encrypted password is the one used.
    pub fn needs_machine_key(server: &ServerConfigEntry, password_override: Option<&str>) -> (r: bool)
        ensures
            r == (password_override is None && server.password is None
                && server.encrypted_password is Some),
    {
        password_override.is_none() && server.password.is_none() && server.encrypted_password.is_some()
    }
}

} // verus!
