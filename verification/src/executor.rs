//! Connection retries and the selection of databases found on a server.
use vstd::prelude::*;

use crate::error::{ErrorView, MustelError};
use crate::models::{ServerConfigEntry, ServerView, SslMode};
use crate::text::{append, clone_string, concat2, decimal, decimal_string, string_views};

verus! {

/// What glob's `Pattern::new(pattern)` and then `matches(candidate)` answer:
/// `None` when the pattern does not compile.
pub uninterp spec fn glob_pattern_match(pattern: Seq<char>, candidate: Seq<char>) -> Option<bool>;

/// glob: `Pattern::new(pattern)` and, when it compiles, `Pattern::matches`.
/// The glob language is glob's own; its answer is named.
#[verifier::external_body]
fn glob_matches(pattern: &str, candidate: &str) -> (r: Option<bool>)
    ensures
        r == glob_pattern_match(pattern@, candidate@),
{
    glob::Pattern::new(pattern).ok().map(|p| p.matches(candidate))
}

/// Number of TLS connection attempts before the plaintext fallback.
pub const MAX_CONNECT_ATTEMPTS: u32 = 3;

/// What to do after a failed TLS connection attempt.
#[derive(Debug, PartialEq, Eq, Structural)]
pub enum RetryDecision {
    /// Wait this many milliseconds, then try TLS again.
    RetryAfter(u64),
    /// Give up on TLS and try once without it.
    FallBackToNoTls,
    /// Give up: the SSL mode forbids a connection without TLS.
    GiveUp,
}

/// SSL modes under which a connection must be encrypted: `Require`,
/// `VerifyCa` and `VerifyFull`.
pub open spec fn tls_required(mode: Option<SslMode>) -> bool {
    match mode {
        Some(SslMode::Require) | Some(SslMode::VerifyCa) | Some(SslMode::VerifyFull) => true,
        _ => false,
    }
}

/// Under `Disable` no TLS is attempted; every other mode (and none) tries TLS
/// first.
pub open spec fn tls_attempted(mode: Option<SslMode>) -> bool {
    mode != Some(SslMode::Disable)
}

/// The decision after the `failures`-th consecutive TLS failure.
pub open spec fn retry_decision(failures: u32, mode: Option<SslMode>) -> RetryDecision {
    if failures >= MAX_CONNECT_ATTEMPTS {
        if tls_required(mode) {
            RetryDecision::GiveUp
        } else {
            RetryDecision::FallBackToNoTls
        }
    } else {
        RetryDecision::RetryAfter((500 * failures) as u64)
    }
}

/// Counts failed TLS attempts of one connection.
pub struct ConnectRetry {
    failures: u32,
}

impl ConnectRetry {
    /// Failed TLS attempts so far.
    pub closed spec fn failures(&self) -> u32 {
        self.failures
    }

    /// No attempt made yet.
    pub fn new() -> (r: Self)
        ensures
            r.failures() == 0,
    {
        ConnectRetry { failures: 0 }
    }

    /// Records a failed TLS attempt: wait `500 ms × attempts` and retry, until
    /// the third failure; then the plaintext fallback is tried, unless the SSL
    /// mode requires TLS, in which case the connection fails.
    pub fn after_tls_failure(&mut self, ssl_mode: Option<SslMode>) -> (d: RetryDecision)
        requires
            old(self).failures() < MAX_CONNECT_ATTEMPTS,
        ensures
            final(self).failures() == old(self).failures() + 1,
            d == retry_decision(final(self).failures(), ssl_mode),
    {
        self.failures = self.failures + 1;
        if self.failures >= MAX_CONNECT_ATTEMPTS {
            if Self::requires_tls(ssl_mode) {
                RetryDecision::GiveUp
            } else {
                RetryDecision::FallBackToNoTls
            }
        } else {
            RetryDecision::RetryAfter(500 * (self.failures as u64))
        }
    }

    /// Whether the SSL mode forbids a connection without TLS.
    pub fn requires_tls(ssl_mode: Option<SslMode>) -> (r: bool)
        ensures
            r == tls_required(ssl_mode),
    {
        match ssl_mode {
            Some(SslMode::Require) | Some(SslMode::VerifyCa) | Some(SslMode::VerifyFull) => true,
            _ => false,
        }
    }

    /// Whether TLS is tried at all (not under `Disable`).
    pub fn attempts_tls(ssl_mode: Option<SslMode>) -> (r: bool)
        ensures
            r == tls_attempted(ssl_mode),
    {
        match ssl_mode {
            Some(SslMode::Disable) => false,
            _ => true,
        }
    }

    /// Whether another TLS attempt is allowed.
    pub fn may_retry(&self) -> (r: bool)
        ensures
            r == (self.failures() < MAX_CONNECT_ATTEMPTS),
    {
        self.failures < MAX_CONNECT_ATTEMPTS
    }
}

/// From a fresh start, consecutive TLS failures are answered by waits of
/// 500 ms and 1000 ms; the third falls back to a plaintext attempt, except
/// under a mode that requires TLS, where it gives up. A plaintext attempt is
/// never decided under such a mode.
pub proof fn lemma_retry_schedule(mode: Option<SslMode>)
    ensures
        retry_decision(1, mode) == RetryDecision::RetryAfter(500),
        retry_decision(2, mode) == RetryDecision::RetryAfter(1000),
        retry_decision(3, mode) == if tls_required(mode) {
            RetryDecision::GiveUp
        } else {
            RetryDecision::FallBackToNoTls
        },
        forall|k: u32| 1 <= k < MAX_CONNECT_ATTEMPTS ==> #[trigger] retry_decision(k, mode)
            is RetryAfter,
        forall|k: u32| tls_required(mode) ==> #[trigger] retry_decision(k, mode)
            != RetryDecision::FallBackToNoTls,
{
}

pub open spec fn msg_connect_failed(host: Seq<char>, port: u16, error: Seq<char>) -> Seq<char> {
    "Failed to connect to "@ + host + ":"@ + decimal(port as nat) + " after "@ + decimal(
        MAX_CONNECT_ATTEMPTS as nat,
    ) + " attempts: "@ + error
}

pub open spec fn msg_list_failed(error: Seq<char>) -> Seq<char> {
    "Failed to list databases: "@ + error
}

/// The patterns databases are excluded by: the entry's, the extra ones, and
/// `template*`.
pub open spec fn exclusion_patterns(server: ServerView, extra: Option<Seq<Seq<char>>>) -> Seq<
    Seq<char>,
> {
    let own = match server.exclude_patterns {
        Some(p) => p,
        None => Seq::empty(),
    };
    let more = match extra {
        Some(p) => p,
        None => Seq::empty(),
    };
    own + more + seq!["template*"@]
}

/// Some valid pattern of `patterns` matches `name`.
pub open spec fn excluded_by(patterns: Seq<Seq<char>>, name: Seq<char>) -> bool {
    exists|i: int| 0 <= i < patterns.len() && #[trigger] glob_pattern_match(patterns[i], name) == Some(true)
}

/// The names kept: those that no valid pattern matches, in their order.
pub open spec fn kept_databases(names: Seq<Seq<char>>, patterns: Seq<Seq<char>>) -> Seq<Seq<char>> {
    names.filter(|n: Seq<char>| !excluded_by(patterns, n))
}

/// Discovery never keeps a database that a pattern matches, in particular
/// none that `template*` matches, and keeps only names that were found.
pub proof fn lemma_discovery_excludes(
    names: Seq<Seq<char>>,
    server: ServerView,
    extra: Option<Seq<Seq<char>>>,
)
    ensures
        ({
            let kept = kept_databases(names, exclusion_patterns(server, extra));
            &&& forall|i: int|
                0 <= i < kept.len() ==> names.contains(#[trigger] kept[i]) && glob_pattern_match(
                    "template*"@,
                    kept[i],
                ) != Some(true) && !excluded_by(exclusion_patterns(server, extra), kept[i])
            &&& kept.len() <= names.len()
        }),
{
    let patterns = exclusion_patterns(server, extra);
    let pred = |n: Seq<char>| !excluded_by(patterns, n);
    let kept = kept_databases(names, patterns);
    names.lemma_filter_len(pred);
    assert forall|i: int| 0 <= i < kept.len() implies names.contains(#[trigger] kept[i])
        && glob_pattern_match("template*"@, kept[i]) != Some(true) && !excluded_by(
        patterns,
        kept[i],
    ) by {
        names.lemma_filter_pred(pred, i);
        assert(kept.contains(kept[i]));
        names.lemma_filter_contains_rev(pred, kept[i]);
        let t = patterns.len() - 1;
        assert(patterns[t] == "template*"@);
        if glob_pattern_match("template*"@, kept[i]) == Some(true) {
            assert(glob_pattern_match(patterns[t], kept[i]) == Some(true));
        }
    }
}

fn is_excluded(patterns: &Vec<String>, name: &str) -> (r: bool)
    ensures
        r == excluded_by(string_views(patterns@), name@),
{
    let ghost pv = string_views(patterns@);
    let mut i: usize = 0;
    while i < patterns.len()
        invariant
            i <= patterns.len(),
            pv == string_views(patterns@),
            forall|j: int| 0 <= j < i ==> glob_pattern_match(pv[j], name@) != Some(true),
        decreases patterns.len() - i,
    {
        assert(pv[i as int] == patterns@[i as int]@);
        match glob_matches(patterns[i].as_str(), name) {
            Some(true) => {
                return true;
            },
            _ => {},
        }
        i += 1;
    }
    false
}

fn append_strings(out: &mut Vec<String>, more: &Vec<String>)
    ensures
        string_views(final(out)@) == string_views(old(out)@) + string_views(more@),
{
    let mut i: usize = 0;
    while i < more.len()
        invariant
            i <= more.len(),
            string_views(out@) == string_views(old(out)@) + string_views(more@).take(i as int),
        decreases more.len() - i,
    {
        let s = clone_string(&more[i]);
        let ghost before = out@;
        out.push(s);
        assert(string_views(out@) =~= string_views(before).push(more@[i as int]@));
        i += 1;
        assert(string_views(out@) =~= string_views(old(out)@) + string_views(more@).take(
            i as int,
        ));
    }
    assert(string_views(more@).take(more@.len() as int) =~= string_views(more@));
}

/// Runs queries against PostgreSQL servers.
pub struct DbExecutor;

impl DbExecutor {
    /// The catalog query listing the databases that accept connections.
    pub fn database_list_query() -> (r: &'static str)
        ensures
            r@ == "SELECT datname FROM pg_database WHERE datistemplate = false AND datallowconn = true ORDER BY datname"@,
    {
        "SELECT datname FROM pg_database WHERE datistemplate = false AND datallowconn = true ORDER BY datname"
    }

    /// The patterns databases are excluded by, in the order they are tried.
    pub fn exclusion_patterns(server: &ServerConfigEntry, extra_excludes: Option<&Vec<String>>) -> (r:
        Vec<String>)
        ensures
            string_views(r@) == exclusion_patterns(
                server@,
                match extra_excludes {
                    Some(v) => Some(string_views(v@)),
                    None => None,
                },
            ),
    {
        let mut out: Vec<String> = Vec::new();
        match &server.exclude_patterns {
            Some(p) => append_strings(&mut out, p),
            None => {},
        }
        match extra_excludes {
            Some(p) => append_strings(&mut out, p),
            None => {},
        }
        let ghost before = out@;
        proof {
            reveal_strlit("template*");
        }
        out.push(String::from_str("template*"));
        assert(string_views(out@) =~= string_views(before).push("template*"@));
        assert(string_views(out@) =~= exclusion_patterns(
            server@,
            match extra_excludes {
                Some(v) => Some(string_views(v@)),
                None => None,
            },
        ));
        out
    }

    /// Filters the databases found on a server: those matched by one of the
    /// entry's exclude patterns, an extra pattern or `template*` are dropped
    /// (patterns that do not compile are ignored); the order is kept.
    pub fn exclude_databases(
        db_names: Vec<String>,
        server: &ServerConfigEntry,
        extra_excludes: Option<&Vec<String>>,
    ) -> (r: Vec<String>)
        ensures
            string_views(r@) == kept_databases(
                string_views(db_names@),
                exclusion_patterns(
                    server@,
                    match extra_excludes {
                        Some(v) => Some(string_views(v@)),
                        None => None,
                    },
                ),
            ),
    {
        let patterns = Self::exclusion_patterns(server, extra_excludes);
        let ghost pv = string_views(patterns@);
        let ghost nv = string_views(db_names@);
        let ghost pred = |n: Seq<char>| !excluded_by(pv, n);
        let mut kept: Vec<String> = Vec::new();
        let mut i: usize = 0;
        assert(nv.take(0) =~= Seq::<Seq<char>>::empty());
        while i < db_names.len()
            invariant
                i <= db_names.len(),
                nv == string_views(db_names@),
                pv == string_views(patterns@),
                pred == (|n: Seq<char>| !excluded_by(pv, n)),
                string_views(kept@) == nv.take(i as int).filter(pred),
            decreases db_names.len() - i,
        {
            reveal_with_fuel(Seq::<_>::filter, 1);
            assert(nv.take(i + 1).drop_last() =~= nv.take(i as int));
            assert(nv.take(i + 1).last() == db_names@[i as int]@);
            if !is_excluded(&patterns, db_names[i].as_str()) {
                let s = clone_string(&db_names[i]);
                let ghost before = kept@;
                kept.push(s);
                assert(string_views(kept@) =~= string_views(before).push(nv[i as int]));
            }
            i += 1;
        }
        assert(nv.take(db_names@.len() as int) =~= nv);
        kept
    }

    /// The error reported when neither TLS nor plaintext connections succeed;
    /// `error` is the last TLS error's text.
    pub fn connection_failure(host: &str, port: u16, error: &str) -> (e: MustelError)
        ensures
            e@ == ErrorView::Database(msg_connect_failed(host@, port, error@)),
    {
        proof {
            reveal_strlit("Failed to connect to ");
            reveal_strlit(":");
            reveal_strlit(" after ");
            reveal_strlit(" attempts: ");
        }
        let mut m = concat2("Failed to connect to ", host);
        append(&mut m, ":");
        let p = decimal_string(port as u128);
        append(&mut m, p.as_str());
        append(&mut m, " after ");
        let a = decimal_string(MAX_CONNECT_ATTEMPTS as u128);
        append(&mut m, a.as_str());
        append(&mut m, " attempts: ");
        append(&mut m, error);
        MustelError::Database(m)
    }

    /// The error reported when the database list cannot be read.
    pub fn list_failure(error: &str) -> (e: MustelError)
        ensures
            e@ == ErrorView::Database(msg_list_failed(error@)),
    {
        proof {
            reveal_strlit("Failed to list databases: ");
        }
        MustelError::Database(concat2("Failed to list databases: ", error))
    }
}

} // verus!
