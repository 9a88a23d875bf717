//! The server form of the desktop interface: loading an entry into the
//! form and turning the form back into an entry.
use vstd::prelude::*;

use crate::models::{ServerConfigEntry, ServerView, SslMode};
use crate::text::{
    append, clone_string, concat2, decimal, decimal_string, opt_view, parse_u16, parse_u16_spec,
    string_views, trim, trim_seq,
};

verus! {

/// The contents of the server form.
#[derive(Debug)]
pub struct ServerFormState {
    pub selected_name: Option<String>,
    pub name_input: String,
    pub host_input: String,
    pub port_input: String,
    pub username_input: String,
    pub password_input: String,
    pub database_input: String,
    pub ssl_mode: SslMode,
    pub test_status: Option<Result<String, String>>,
    pub is_testing: bool,
    pub feedback_message: Option<String>,
}

pub open spec fn msg_name_empty() -> Seq<char> {
    "O nome da conexão não pode ser vazio."@
}

pub open spec fn msg_host_empty() -> Seq<char> {
    "O host não pode ser vazio."@
}

pub open spec fn msg_bad_port() -> Seq<char> {
    "Porta inválida (deve ser um número de 1 a 65535)."@
}

/// The first database of an entry, or `postgres`.
pub open spec fn first_database(s: ServerView) -> Seq<char> {
    match s.databases {
        Some(dbs) => if dbs.len() > 0 {
            dbs[0]
        } else {
            "postgres"@
        },
        None => "postgres"@,
    }
}

/// The entry a filled-in form stands for, or the message of the first field
/// that is wrong.
pub open spec fn form_entry(
    name: Seq<char>,
    host: Seq<char>,
    port: Seq<char>,
    username: Seq<char>,
    password: Seq<char>,
    database: Seq<char>,
    ssl_mode: SslMode,
) -> Result<ServerView, Seq<char>> {
    if trim_seq(name).len() == 0 {
        Err(msg_name_empty())
    } else if trim_seq(host).len() == 0 {
        Err(msg_host_empty())
    } else {
        match parse_u16_spec(trim_seq(port)) {
            None => Err(msg_bad_port()),
            Some(p) => Ok(
                ServerView {
                    name: trim_seq(name),
                    host: trim_seq(host),
                    port: p,
                    username: trim_seq(username),
                    password: if password.len() == 0 {
                        None
                    } else {
                        Some(password)
                    },
                    encrypted_password: None,
                    databases: Some(
                        seq![
                            if trim_seq(database).len() == 0 {
                                "postgres"@
                            } else {
                                trim_seq(database)
                            },
                        ],
                    ),
                    fetch_all_databases: Some(false),
                    exclude_patterns: Some(seq!["template*"@]),
                    ssl_mode: Some(ssl_mode),
                    timeout: Some(30),
                    command_timeout: Some(300),
                    max_parallelism: Some(4),
                },
            ),
        }
    }
}

/// The view of a form: its inputs, as in `form_entry`.
pub open spec fn form_result(f: ServerFormState) -> Result<ServerView, Seq<char>> {
    form_entry(
        f.name_input@,
        f.host_input@,
        f.port_input@,
        f.username_input@,
        f.password_input@,
        f.database_input@,
        f.ssl_mode,
    )
}

/// No white space at either end (and not empty when `nonempty`).
pub open spec fn is_trimmed(s: Seq<char>) -> bool {
    s.len() > 0 ==> !crate::text::white_space(s[0]) && !crate::text::white_space(s[s.len() - 1])
}

impl ServerFormState {
    /// An empty form for a new server: localhost:5432, user and database
    /// `postgres`, SSL `Prefer`.
    pub fn new() -> (r: Self)
        ensures
            r.selected_name is None,
            r.name_input@ == Seq::<char>::empty(),
            r.host_input@ == "localhost"@,
            r.port_input@ == "5432"@,
            r.username_input@ == "postgres"@,
            r.password_input@ == Seq::<char>::empty(),
            r.database_input@ == "postgres"@,
            r.ssl_mode == SslMode::Prefer,
            r.test_status is None,
            !r.is_testing,
            r.feedback_message is None,
    {
        proof {
            reveal_strlit("localhost");
            reveal_strlit("5432");
            reveal_strlit("postgres");
        }
        ServerFormState {
            selected_name: None,
            name_input: String::new(),
            host_input: String::from_str("localhost"),
            port_input: String::from_str("5432"),
            username_input: String::from_str("postgres"),
            password_input: String::new(),
            database_input: String::from_str("postgres"),
            ssl_mode: SslMode::Prefer,
            test_status: None,
            is_testing: false,
            feedback_message: None,
        }
    }

    /// Fills the form from a saved entry for editing.
    pub fn load_server(&mut self, server: &ServerConfigEntry)
        ensures
            opt_view(final(self).selected_name) == Some(server.name@),
            final(self).name_input@ == server.name@,
            final(self).host_input@ == server.host@,
            final(self).port_input@ == decimal(server.port as nat),
            final(self).username_input@ == server.username@,
            final(self).password_input@ == match server.password {
                Some(p) => p@,
                None => Seq::<char>::empty(),
            },
            final(self).database_input@ == first_database(server@),
            final(self).ssl_mode == match server.ssl_mode {
                Some(m) => m,
                None => SslMode::Prefer,
            },
            final(self).test_status is None,
            final(self).feedback_message is None,
            final(self).is_testing == old(self).is_testing,
    {
        proof {
            reveal_strlit("postgres");
        }
        self.selected_name = Some(clone_string(&server.name));
        self.name_input = clone_string(&server.name);
        self.host_input = clone_string(&server.host);
        self.port_input = decimal_string(server.port as u128);
        self.username_input = clone_string(&server.username);
        self.password_input = match &server.password {
            Some(p) => clone_string(p),
            None => String::new(),
        };
        self.database_input = match &server.databases {
            Some(dbs) => if dbs.len() > 0 {
                clone_string(&dbs[0])
            } else {
                String::from_str("postgres")
            },
            None => String::from_str("postgres"),
        };
        self.ssl_mode = match server.ssl_mode {
            Some(m) => m,
            None => SslMode::Prefer,
        };
        self.test_status = None;
        self.feedback_message = None;
    }

    /// Resets the form to a new, empty one.
    pub fn clear(&mut self)
        ensures
            final(self).selected_name is None,
            final(self).name_input@ == Seq::<char>::empty(),
            final(self).host_input@ == "localhost"@,
            final(self).port_input@ == "5432"@,
            final(self).username_input@ == "postgres"@,
            final(self).password_input@ == Seq::<char>::empty(),
            final(self).database_input@ == "postgres"@,
            final(self).ssl_mode == SslMode::Prefer,
            final(self).test_status is None,
            !final(self).is_testing,
            final(self).feedback_message is None,
    {
        *self = Self::new();
    }

    /// The entry the form stands for: name and host must not be blank and the
    /// port must be a number; inputs are trimmed (the password is not), a
    /// blank database becomes `postgres`.
    pub fn to_server_entry(&self) -> (r: Result<ServerConfigEntry, String>)
        ensures
            match r {
                Ok(e) => form_result(*self) == Ok::<ServerView, Seq<char>>(e@),
                Err(m) => form_result(*self) == Err::<ServerView, Seq<char>>(m@),
            },
    {
        proof {
            reveal_strlit("O nome da conexão não pode ser vazio.");
            reveal_strlit("O host não pode ser vazio.");
            reveal_strlit("Porta inválida (deve ser um número de 1 a 65535).");
            reveal_strlit("postgres");
            reveal_strlit("template*");
        }
        let name = trim(self.name_input.as_str());
        if name.as_str().is_empty() {
            return Err(String::from_str("O nome da conexão não pode ser vazio."));
        }
        let host = trim(self.host_input.as_str());
        if host.as_str().is_empty() {
            return Err(String::from_str("O host não pode ser vazio."));
        }
        let port_text = trim(self.port_input.as_str());
        let port = match parse_u16(port_text.as_str()) {
            Some(p) => p,
            None => {
                return Err(String::from_str("Porta inválida (deve ser um número de 1 a 65535)."));
            },
        };
        let password = if self.password_input.as_str().is_empty() {
            None
        } else {
            Some(clone_string(&self.password_input))
        };
        let db_text = trim(self.database_input.as_str());
        let database = if db_text.as_str().is_empty() {
            String::from_str("postgres")
        } else {
            db_text
        };
        let ghost dbv = database@;
        let mut dbs: Vec<String> = Vec::new();
        dbs.push(database);
        assert(string_views(dbs@) =~= seq![dbv]);
        let mut excludes: Vec<String> = Vec::new();
        excludes.push(String::from_str("template*"));
        assert(string_views(excludes@) =~= seq!["template*"@]);
        Ok(
            ServerConfigEntry {
                name,
                host,
                port,
                username: trim(self.username_input.as_str()),
                password,
                encrypted_password: None,
                databases: Some(dbs),
                fetch_all_databases: Some(false),
                exclude_patterns: Some(excludes),
                ssl_mode: Some(self.ssl_mode),
                timeout: Some(30),
                command_timeout: Some(300),
                max_parallelism: Some(4),
            },
        )
    }

    /// The form's heading.
    pub fn form_title(&self) -> (r: String)
        ensures
            r@ == if self.selected_name is Some {
                "Editar Servidor"@
            } else {
                "Novo Servidor"@
            },
    {
        if self.selected_name.is_some() {
            crate::text::copy_str("Editar Servidor")
        } else {
            crate::text::copy_str("Novo Servidor")
        }
    }

    /// The button text of a saved server.
    pub fn server_label(server: &ServerConfigEntry) -> (r: String)
        ensures
            r@ == "🗄️ "@ + server.name@ + " ("@ + server.host@ + ":"@ + decimal(
                server.port as nat,
            ) + ")"@,
    {
        let mut t = concat2("🗄️ ", server.name.as_str());
        append(&mut t, " (");
        append(&mut t, server.host.as_str());
        append(&mut t, ":");
        let p = decimal_string(server.port as u128);
        append(&mut t, p.as_str());
        append(&mut t, ")");
        t
    }

    /// The line reporting the last connection test, if any.
    pub fn test_status_text(&self) -> (r: Option<String>)
        ensures
            match self.test_status {
                Some(Ok(m)) => r matches Some(t) && t@ == "✔ Teste OK: "@ + m@,
                Some(Err(m)) => r matches Some(t) && t@ == "✖ Teste Falhou: "@ + m@,
                None => r is None,
            },
    {
        match &self.test_status {
            Some(Ok(m)) => Some(concat2("✔ Teste OK: ", m.as_str())),
            Some(Err(m)) => Some(concat2("✖ Teste Falhou: ", m.as_str())),
            None => None,
        }
    }
}

/// Editing a saved entry and saving the form unchanged keeps its name, host,
/// port and user, when these carry no surrounding white space and the name and
/// host are not empty.
pub proof fn lemma_form_roundtrip(s: ServerView, password: Seq<char>, database: Seq<char>, mode: SslMode)
    requires
        s.name.len() > 0,
        s.host.len() > 0,
        is_trimmed(s.name),
        is_trimmed(s.host),
        is_trimmed(s.username),
    ensures
        form_entry(
            s.name,
            s.host,
            decimal(s.port as nat),
            s.username,
            password,
            database,
            mode,
        ) matches Ok(e) && e.name == s.name && e.host == s.host && e.port == s.port && e.username
            == s.username,
{
    crate::text::lemma_trim_of_trimmed(s.name);
    crate::text::lemma_trim_of_trimmed(s.host);
    crate::text::lemma_trim_of_trimmed(s.username);
    crate::text::lemma_parse_decimal_u16(s.port);
    crate::text::lemma_decimal_digits(s.port as nat);
    crate::text::lemma_trim_of_trimmed(decimal(s.port as nat));
}

} // verus!
