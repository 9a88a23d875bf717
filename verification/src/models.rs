//! Configuration data: server entries, user defaults and the file's root.
use vstd::prelude::*;

use crate::text::{
    all_ascii, ascii_lowercase, clone_opt_string, clone_opt_strings, clone_string, concat2,
    opt_view, opt_views, str_equal, str_lowercase, to_lowercase,
};

verus! {

/// SSL connection modes for PostgreSQL.
#[derive(Debug, Clone, Copy, PartialEq, Eq, Structural)]
pub enum SslMode {
    Disable,
    Allow,
    Prefer,
    Require,
    VerifyCa,
    VerifyFull,
}

/// The name each mode is written with (its `Display` text).
pub open spec fn ssl_mode_name(m: SslMode) -> Seq<char> {
    match m {
        SslMode::Disable => "Disable"@,
        SslMode::Allow => "Allow"@,
        SslMode::Prefer => "Prefer"@,
        SslMode::Require => "Require"@,
        SslMode::VerifyCa => "VerifyCa"@,
        SslMode::VerifyFull => "VerifyFull"@,
    }
}

/// The mode a lowercase spelling stands for.
pub open spec fn ssl_mode_from_lower(l: Seq<char>) -> Option<SslMode> {
    if l == "disable"@ {
        Some(SslMode::Disable)
    } else if l == "allow"@ {
        Some(SslMode::Allow)
    } else if l == "prefer"@ {
        Some(SslMode::Prefer)
    } else if l == "require"@ {
        Some(SslMode::Require)
    } else if l == "verifyca"@ || l == "verify-ca"@ {
        Some(SslMode::VerifyCa)
    } else if l == "verifyfull"@ || l == "verify-full"@ {
        Some(SslMode::VerifyFull)
    } else {
        None
    }
}

/// `SslMode::from_str`: the spelling is compared after lowercasing.
pub open spec fn parse_ssl_mode_spec(s: Seq<char>) -> Result<SslMode, Seq<char>> {
    match ssl_mode_from_lower(str_lowercase(s)) {
        Some(m) => Ok(m),
        None => Err("Unknown SSL mode: "@ + s),
    }
}

impl Default for SslMode {
    fn default() -> (r: Self)
        ensures
            r == SslMode::Prefer,
    {
        SslMode::Prefer
    }
}

impl SslMode {
    /// Parses a mode name, case-insensitively; `verify-ca` and `verify-full`
    /// are accepted besides `verifyca` and `verifyfull`.
    pub fn parse(s: &str) -> (r: Result<SslMode, String>)
        ensures
            match r {
                Ok(m) => parse_ssl_mode_spec(s@) == Ok::<SslMode, Seq<char>>(m),
                Err(e) => parse_ssl_mode_spec(s@) == Err::<SslMode, Seq<char>>(e@),
            },
    {
        proof {
            reveal_strlit("disable");
            reveal_strlit("allow");
            reveal_strlit("prefer");
            reveal_strlit("require");
            reveal_strlit("verifyca");
            reveal_strlit("verify-ca");
            reveal_strlit("verifyfull");
            reveal_strlit("verify-full");
            reveal_strlit("Unknown SSL mode: ");
        }
        let lower = to_lowercase(s);
        let l = lower.as_str();
        if str_equal(l, "disable") {
            Ok(SslMode::Disable)
        } else if str_equal(l, "allow") {
            Ok(SslMode::Allow)
        } else if str_equal(l, "prefer") {
            Ok(SslMode::Prefer)
        } else if str_equal(l, "require") {
            Ok(SslMode::Require)
        } else if str_equal(l, "verifyca") || str_equal(l, "verify-ca") {
            Ok(SslMode::VerifyCa)
        } else if str_equal(l, "verifyfull") || str_equal(l, "verify-full") {
            Ok(SslMode::VerifyFull)
        } else {
            Err(concat2("Unknown SSL mode: ", s))
        }
    }

    /// The mode's name as shown to users (`Display`).
    pub fn display_name(&self) -> (r: String)
        ensures
            r@ == ssl_mode_name(*self),
    {
        proof {
            reveal_strlit("Disable");
            reveal_strlit("Allow");
            reveal_strlit("Prefer");
            reveal_strlit("Require");
            reveal_strlit("VerifyCa");
            reveal_strlit("VerifyFull");
        }
        match self {
            SslMode::Disable => String::from_str("Disable"),
            SslMode::Allow => String::from_str("Allow"),
            SslMode::Prefer => String::from_str("Prefer"),
            SslMode::Require => String::from_str("Require"),
            SslMode::VerifyCa => String::from_str("VerifyCa"),
            SslMode::VerifyFull => String::from_str("VerifyFull"),
        }
    }
}

impl std::str::FromStr for SslMode {
    type Err = String;

    fn from_str(s: &str) -> (r: Result<Self, Self::Err>)
        ensures
            match r {
                Ok(m) => parse_ssl_mode_spec(s@) == Ok::<SslMode, Seq<char>>(m),
                Err(e) => parse_ssl_mode_spec(s@) == Err::<SslMode, Seq<char>>(e@),
            },
    {
        SslMode::parse(s)
    }
}

/// Parsing the name a mode is displayed with gives the mode back.
pub proof fn lemma_ssl_mode_name_roundtrip(m: SslMode)
    ensures
        parse_ssl_mode_spec(ssl_mode_name(m)) == Ok::<SslMode, Seq<char>>(m),
{
    reveal_strlit("Disable");
    reveal_strlit("Allow");
    reveal_strlit("Prefer");
    reveal_strlit("Require");
    reveal_strlit("VerifyCa");
    reveal_strlit("VerifyFull");
    reveal_strlit("disable");
    reveal_strlit("allow");
    reveal_strlit("prefer");
    reveal_strlit("require");
    reveal_strlit("verifyca");
    reveal_strlit("verify-ca");
    reveal_strlit("verifyfull");
    reveal_strlit("verify-full");
    let n = ssl_mode_name(m);
    assert(all_ascii(n));
    match m {
        SslMode::Disable => {
            assert(ascii_lowercase(n) =~= "disable"@);
            assert(str_lowercase(n) == "disable"@);
            assert(ssl_mode_from_lower("disable"@) == Some(SslMode::Disable));
        },
        SslMode::Allow => assert(ascii_lowercase(n) =~= "allow"@),
        SslMode::Prefer => assert(ascii_lowercase(n) =~= "prefer"@),
        SslMode::Require => {
            assert(ascii_lowercase(n) =~= "require"@);
            assert("require"@[0] != "disable"@[0]);
        },
        SslMode::VerifyCa => {
            assert(ascii_lowercase(n) =~= "verifyca"@);
            assert("verifyca"@ != "disable"@);
            assert("verifyca"@ != "allow"@);
            assert("verifyca"@ != "prefer"@);
            assert("verifyca"@ != "require"@);
        },
        SslMode::VerifyFull => {
            assert(ascii_lowercase(n) =~= "verifyfull"@);
            assert("verifyfull"@ != "disable"@);
            assert("verifyfull"@ != "allow"@);
            assert("verifyfull"@ != "prefer"@);
            assert("verifyfull"@ != "require"@);
            assert("verifyfull"@[6] != "verifyca"@[6]);
            assert("verifyfull"@ != "verify-ca"@);
        },
    }
}

/// The port used when a server entry names none.
pub fn default_port() -> (r: u16)
    ensures
        r == 5432,
{
    5432
}

/// The connect timeout (seconds) used when a server entry names none.
pub fn default_timeout() -> (r: Option<u64>)
    ensures
        r == Some(30u64),
{
    Some(30)
}

/// The command timeout (seconds) used when a server entry names none.
pub fn default_command_timeout() -> (r: Option<u64>)
    ensures
        r == Some(300u64),
{
    Some(300)
}

/// The per-server parallelism used when a server entry names none.
pub fn default_max_parallelism() -> (r: Option<usize>)
    ensures
        r == Some(4usize),
{
    Some(4)
}

/// The output format used when the defaults name none.
pub fn default_output_format() -> (r: String)
    ensures
        r@ == "csv"@,
{
    proof {
        reveal_strlit("csv");
    }
    String::from_str("csv")
}

/// The output directory used when the defaults name none.
pub fn default_output_directory() -> (r: String)
    ensures
        r@ == "./results"@,
{
    proof {
        reveal_strlit("./results");
    }
    String::from_str("./results")
}

/// `true`, the default of `requireConfirmation`.
pub fn default_true() -> (r: bool)
    ensures
        r,
{
    true
}

/// The overall parallelism used when the defaults name none.
pub fn default_max_parallelism_val() -> (r: usize)
    ensures
        r == 4,
{
    4
}

/// A single PostgreSQL server configuration entry.
#[derive(Debug)]
pub struct ServerConfigEntry {
    pub name: String,
    pub host: String,
    pub port: u16,
    pub username: String,
    pub password: Option<String>,
    pub encrypted_password: Option<String>,
    pub databases: Option<Vec<String>>,
    pub fetch_all_databases: Option<bool>,
    pub exclude_patterns: Option<Vec<String>>,
    pub ssl_mode: Option<SslMode>,
    pub timeout: Option<u64>,
    pub command_timeout: Option<u64>,
    pub max_parallelism: Option<usize>,
}

/// The content of a `ServerConfigEntry`.
pub ghost struct ServerView {
    pub name: Seq<char>,
    pub host: Seq<char>,
    pub port: u16,
    pub username: Seq<char>,
    pub password: Option<Seq<char>>,
    pub encrypted_password: Option<Seq<char>>,
    pub databases: Option<Seq<Seq<char>>>,
    pub fetch_all_databases: Option<bool>,
    pub exclude_patterns: Option<Seq<Seq<char>>>,
    pub ssl_mode: Option<SslMode>,
    pub timeout: Option<u64>,
    pub command_timeout: Option<u64>,
    pub max_parallelism: Option<usize>,
}

impl View for ServerConfigEntry {
    type V = ServerView;

    open spec fn view(&self) -> ServerView {
        ServerView {
            name: self.name@,
            host: self.host@,
            port: self.port,
            username: self.username@,
            password: opt_view(self.password),
            encrypted_password: opt_view(self.encrypted_password),
            databases: opt_views(self.databases),
            fetch_all_databases: self.fetch_all_databases,
            exclude_patterns: opt_views(self.exclude_patterns),
            ssl_mode: self.ssl_mode,
            timeout: self.timeout,
            command_timeout: self.command_timeout,
            max_parallelism: self.max_parallelism,
        }
    }
}

pub open spec fn servers_view(v: Seq<ServerConfigEntry>) -> Seq<ServerView> {
    v.map_values(|e: ServerConfigEntry| e@)
}

impl ServerConfigEntry {
    /// A copy of the entry.
    pub fn duplicate(&self) -> (r: ServerConfigEntry)
        ensures
            r@ == self@,
    {
        ServerConfigEntry {
            name: clone_string(&self.name),
            host: clone_string(&self.host),
            port: self.port,
            username: clone_string(&self.username),
            password: clone_opt_string(&self.password),
            encrypted_password: clone_opt_string(&self.encrypted_password),
            databases: clone_opt_strings(&self.databases),
            fetch_all_databases: self.fetch_all_databases,
            exclude_patterns: clone_opt_strings(&self.exclude_patterns),
            ssl_mode: self.ssl_mode,
            timeout: self.timeout,
            command_timeout: self.command_timeout,
            max_parallelism: self.max_parallelism,
        }
    }
}

/// A copy of a list of server entries.
pub fn duplicate_servers(v: &Vec<ServerConfigEntry>) -> (r: Vec<ServerConfigEntry>)
    ensures
        servers_view(r@) == servers_view(v@),
{
    let mut out: Vec<ServerConfigEntry> = Vec::new();
    let mut i: usize = 0;
    while i < v.len()
        invariant
            i <= v.len(),
            servers_view(out@) == servers_view(v@).take(i as int),
        decreases v.len() - i,
    {
        let e = v[i].duplicate();
        let ghost old_out = out@;
        out.push(e);
        assert(servers_view(out@) =~= servers_view(old_out).push(v@[i as int]@));
        i += 1;
        assert(servers_view(out@) =~= servers_view(v@).take(i as int));
    }
    assert(servers_view(v@).take(v@.len() as int) =~= servers_view(v@));
    out
}

/// Default settings across the application.
#[derive(Debug)]
pub struct UserDefaults {
    pub output_format: String,
    pub output_directory: String,
    pub fetch_all_databases: bool,
    pub require_confirmation: bool,
    pub max_parallelism: usize,
}

pub ghost struct DefaultsView {
    pub output_format: Seq<char>,
    pub output_directory: Seq<char>,
    pub fetch_all_databases: bool,
    pub require_confirmation: bool,
    pub max_parallelism: usize,
}

impl View for UserDefaults {
    type V = DefaultsView;

    open spec fn view(&self) -> DefaultsView {
        DefaultsView {
            output_format: self.output_format@,
            output_directory: self.output_directory@,
            fetch_all_databases: self.fetch_all_databases,
            require_confirmation: self.require_confirmation,
            max_parallelism: self.max_parallelism,
        }
    }
}

impl UserDefaults {
    /// A copy of the defaults.
    pub fn duplicate(&self) -> (r: UserDefaults)
        ensures
            r@ == self@,
    {
        UserDefaults {
            output_format: clone_string(&self.output_format),
            output_directory: clone_string(&self.output_directory),
            fetch_all_databases: self.fetch_all_databases,
            require_confirmation: self.require_confirmation,
            max_parallelism: self.max_parallelism,
        }
    }
}

impl Default for UserDefaults {
    /// CSV output into `./results`, no database discovery, confirmation
    /// required, four queries at a time.
    fn default() -> (r: Self)
        ensures
            r@ == (DefaultsView {
                output_format: "csv"@,
                output_directory: "./results"@,
                fetch_all_databases: false,
                require_confirmation: true,
                max_parallelism: 4,
            }),
    {
        UserDefaults {
            output_format: default_output_format(),
            output_directory: default_output_directory(),
            fetch_all_databases: false,
            require_confirmation: true,
            max_parallelism: 4,
        }
    }
}

/// The root of the user configuration file.
#[derive(Debug)]
pub struct UserConfig {
    pub servers: Vec<ServerConfigEntry>,
    pub defaults: UserDefaults,
}

pub ghost struct ConfigView {
    pub servers: Seq<ServerView>,
    pub defaults: DefaultsView,
}

impl View for UserConfig {
    type V = ConfigView;

    open spec fn view(&self) -> ConfigView {
        ConfigView { servers: servers_view(self.servers@), defaults: self.defaults@ }
    }
}

impl Default for UserConfig {
    /// No servers, default settings.
    fn default() -> (r: Self)
        ensures
            r@.servers.len() == 0,
            r@.defaults == (DefaultsView {
                output_format: "csv"@,
                output_directory: "./results"@,
                fetch_all_databases: false,
                require_confirmation: true,
                max_parallelism: 4,
            }),
    {
        UserConfig { servers: Vec::new(), defaults: UserDefaults::default() }
    }
}

} // verus!
