//! Operations on the loaded user configuration: lookup, upsert and removal
//! of server entries by case-insensitive name, password updates, defaults.
//! Reading and writing the file itself happens around these calls.
use vstd::prelude::*;

use crate::error::{ErrorView, MustelError};
use crate::models::{duplicate_servers, servers_view, ServerConfigEntry, ServerView, UserConfig, UserDefaults};
use crate::text::{concat3, eq_ignore_ascii_case, eq_ignore_ascii_case_spec};

verus! {

/// The entry is named `name`, ignoring ASCII case.
pub open spec fn name_matches(v: ServerView, name: Seq<char>) -> bool {
    eq_ignore_ascii_case_spec(v.name, name)
}

/// The position of the first entry from `i` on named `name`.
pub open spec fn first_match_from(s: Seq<ServerView>, name: Seq<char>, i: int) -> Option<int>
    decreases s.len() - i,
{
    if i < 0 || i >= s.len() {
        None
    } else if name_matches(s[i], name) {
        Some(i)
    } else {
        first_match_from(s, name, i + 1)
    }
}

/// The position of the first entry named `name`.
pub open spec fn first_match(s: Seq<ServerView>, name: Seq<char>) -> Option<int> {
    first_match_from(s, name, 0)
}

/// The first entry named `name` (case-insensitively), if any.
pub open spec fn find_server(s: Seq<ServerView>, name: Seq<char>) -> Option<ServerView> {
    match first_match(s, name) {
        Some(i) => Some(s[i]),
        None => None,
    }
}

/// The list with `server` in place of the first entry of the same name, or
/// appended when there is none.
pub open spec fn upsert_server(s: Seq<ServerView>, server: ServerView) -> Seq<ServerView> {
    match first_match(s, server.name) {
        Some(i) => s.update(i, server),
        None => s.push(server),
    }
}

/// The list without any entry named `name`.
pub open spec fn without_server(s: Seq<ServerView>, name: Seq<char>) -> Seq<ServerView> {
    s.filter(other_name(name))
}

/// The entries not named `name`.
pub open spec fn other_name(name: Seq<char>) -> spec_fn(ServerView) -> bool {
    |v: ServerView| !name_matches(v, name)
}

/// The entry with its encrypted password set and its plaintext password cleared.
pub open spec fn with_encrypted(v: ServerView, encrypted: Seq<char>) -> ServerView {
    ServerView { encrypted_password: Some(encrypted), password: None, ..v }
}

pub open spec fn msg_server_not_found(name: Seq<char>) -> Seq<char> {
    "Server '"@ + name + "' not found"@
}

/// The configuration file path in use: the Mustel file when it exists, else
/// the legacy FurLab file when that exists, else the Mustel path; a local
/// `mustel.jsonc` when the OS gives no configuration directory.
pub open spec fn config_path_choice(
    mustel_path: Option<Seq<char>>,
    mustel_exists: bool,
    legacy_path: Option<Seq<char>>,
    legacy_exists: bool,
) -> Seq<char> {
    match mustel_path {
        Some(p) => if mustel_exists {
            p
        } else {
            match legacy_path {
                Some(l) => if legacy_exists {
                    l
                } else {
                    p
                },
                None => p,
            }
        },
        None => "mustel.jsonc"@,
    }
}

proof fn lemma_first_match_from_found(s: Seq<ServerView>, name: Seq<char>, i: int)
    requires
        first_match_from(s, name, i) matches Some(k),
    ensures
        first_match_from(s, name, i) matches Some(k) && i <= k < s.len() && name_matches(
            s[k],
            name,
        ),
        first_match_from(s, name, i) matches Some(k) && forall|j: int|
            i <= j < k ==> !name_matches(#[trigger] s[j], name),
    decreases s.len() - i,
{
    if i >= 0 && i < s.len() && !name_matches(s[i], name) {
        lemma_first_match_from_found(s, name, i + 1);
    }
}

proof fn lemma_first_match_from_none(s: Seq<ServerView>, name: Seq<char>, i: int)
    requires
        0 <= i,
        first_match_from(s, name, i) is None,
    ensures
        forall|j: int| i <= j < s.len() ==> !name_matches(#[trigger] s[j], name),
    decreases s.len() - i,
{
    if i < s.len() {
        lemma_first_match_from_none(s, name, i + 1);
    }
}

proof fn lemma_first_match_of(s: Seq<ServerView>, name: Seq<char>, k: int)
    requires
        0 <= k < s.len(),
        name_matches(s[k], name),
        forall|j: int| 0 <= j < k ==> !name_matches(#[trigger] s[j], name),
    ensures
        first_match(s, name) == Some(k),
{
    assert forall|i: int| 0 <= i <= k implies first_match_from(s, name, i) == Some(k) by {
        lemma_first_match_step(s, name, i, k);
    }
}

proof fn lemma_first_match_step(s: Seq<ServerView>, name: Seq<char>, i: int, k: int)
    requires
        0 <= i <= k < s.len(),
        name_matches(s[k], name),
        forall|j: int| 0 <= j < k ==> !name_matches(#[trigger] s[j], name),
    ensures
        first_match_from(s, name, i) == Some(k),
    decreases k - i,
{
    if i < k {
        lemma_first_match_step(s, name, i + 1, k);
    }
}

proof fn lemma_eq_ignore_case_refl(a: Seq<char>)
    ensures
        eq_ignore_ascii_case_spec(a, a),
{
}

/// Read after write: once `server` is stored, looking up its name finds it.
pub proof fn lemma_find_after_upsert(s: Seq<ServerView>, server: ServerView)
    ensures
        find_server(upsert_server(s, server), server.name) == Some(server),
{
    lemma_eq_ignore_case_refl(server.name);
    let t = upsert_server(s, server);
    match first_match(s, server.name) {
        Some(i) => {
            lemma_first_match_from_found(s, server.name, 0);
            assert forall|j: int| 0 <= j < i implies !name_matches(#[trigger] t[j], server.name) by {
                assert(t[j] == s[j]);
            }
            lemma_first_match_of(t, server.name, i);
        },
        None => {
            lemma_first_match_from_none(s, server.name, 0);
            let k = s.len() as int;
            assert forall|j: int| 0 <= j < k implies !name_matches(#[trigger] t[j], server.name) by {
                assert(t[j] == s[j]);
            }
            lemma_first_match_of(t, server.name, k);
        },
    }
}

/// Storing an entry under a name already present keeps the number of entries;
/// under a new name it adds one.
pub proof fn lemma_upsert_len(s: Seq<ServerView>, server: ServerView)
    ensures
        upsert_server(s, server).len() == if first_match(s, server.name) is Some {
            s.len()
        } else {
            s.len() + 1
        },
{
    if first_match(s, server.name) is Some {
        lemma_first_match_from_found(s, server.name, 0);
    }
}

/// After removal, no entry answers to the name.
pub proof fn lemma_find_after_remove(s: Seq<ServerView>, name: Seq<char>)
    ensures
        find_server(without_server(s, name), name) is None,
{
    let t = without_server(s, name);
    assert forall|j: int| 0 <= j < t.len() implies !name_matches(#[trigger] t[j], name) by {
        s.lemma_filter_pred(other_name(name), j);
    }
    if first_match(t, name) is Some {
        lemma_first_match_from_found(t, name, 0);
    }
}

/// Read after write: after setting an encrypted password, the entry found
/// under that name carries it and no plaintext password.
pub proof fn lemma_find_after_set_encrypted(s: Seq<ServerView>, name: Seq<char>, enc: Seq<char>)
    requires
        first_match(s, name) is Some,
    ensures
        ({
            let i = first_match(s, name)->0;
            find_server(s.update(i, with_encrypted(s[i], enc)), name) == Some(
                with_encrypted(s[i], enc),
            )
        }),
{
    let i = first_match(s, name)->0;
    lemma_first_match_from_found(s, name, 0);
    let t = s.update(i, with_encrypted(s[i], enc));
    assert forall|j: int| 0 <= j < i implies !name_matches(#[trigger] t[j], name) by {
        assert(t[j] == s[j]);
    }
    lemma_first_match_of(t, name, i);
}

/// Removing a server that was just added under a new name gives the list back.
pub proof fn lemma_remove_undoes_add(s: Seq<ServerView>, server: ServerView)
    requires
        first_match(s, server.name) is None,
    ensures
        without_server(upsert_server(s, server), server.name) == s,
{
    let pred = other_name(server.name);
    lemma_eq_ignore_case_refl(server.name);
    lemma_first_match_from_none(s, server.name, 0);
    assert forall|j: int| 0 <= j < s.len() implies pred(#[trigger] s[j]) by {}
    lemma_filter_all(s, pred);
    let t = s.push(server);
    reveal_with_fuel(Seq::<_>::filter, 1);
    assert(t.drop_last() =~= s);
    assert(!pred(server));
}

/// Storing a server leaves what every other name finds unchanged.
pub proof fn lemma_upsert_keeps_others(s: Seq<ServerView>, server: ServerView, name: Seq<char>)
    requires
        !eq_ignore_ascii_case_spec(name, server.name),
    ensures
        find_server(upsert_server(s, server), name) == find_server(s, name),
{
    let t = upsert_server(s, server);
    assert(!name_matches(server, name));
    match first_match(s, name) {
        Some(k) => {
            lemma_first_match_from_found(s, name, 0);
            match first_match(s, server.name) {
                Some(i) => {
                    lemma_first_match_from_found(s, server.name, 0);
                    assert(i != k);
                    assert(t[k] == s[k]);
                    assert forall|j: int| 0 <= j < k implies !name_matches(#[trigger] t[j], name) by {
                        assert(t[j] == s[j] || t[j] == server);
                    }
                },
                None => {
                    assert(t[k] == s[k]);
                    assert forall|j: int| 0 <= j < k implies !name_matches(#[trigger] t[j], name) by {
                        assert(t[j] == s[j]);
                    }
                },
            }
            lemma_first_match_of(t, name, k);
        },
        None => {
            lemma_first_match_from_none(s, name, 0);
            if first_match(s, server.name) is Some {
                lemma_first_match_from_found(s, server.name, 0);
            }
            assert forall|j: int| 0 <= j < t.len() implies !name_matches(#[trigger] t[j], name) by {
                if j < s.len() {
                    assert(t[j] == s[j] || t[j] == server);
                } else {
                    assert(t[j] == server);
                }
            }
            if first_match(t, name) is Some {
                lemma_first_match_from_found(t, name, 0);
            }
        },
    }
}

proof fn lemma_find_push(t: Seq<ServerView>, x: ServerView, name: Seq<char>)
    ensures
        find_server(t.push(x), name) == match find_server(t, name) {
            Some(v) => Some(v),
            None => if name_matches(x, name) {
                Some(x)
            } else {
                None
            },
        },
{
    let u = t.push(x);
    match first_match(t, name) {
        Some(k) => {
            lemma_first_match_from_found(t, name, 0);
            assert forall|j: int| 0 <= j < k implies !name_matches(#[trigger] u[j], name) by {
                assert(u[j] == t[j]);
            }
            assert(u[k] == t[k]);
            lemma_first_match_of(u, name, k);
        },
        None => {
            lemma_first_match_from_none(t, name, 0);
            let k = t.len() as int;
            assert forall|j: int| 0 <= j < k implies !name_matches(#[trigger] u[j], name) by {
                assert(u[j] == t[j]);
            }
            if name_matches(x, name) {
                lemma_first_match_of(u, name, k);
            } else if first_match(u, name) is Some {
                lemma_first_match_from_found(u, name, 0);
            }
        },
    }
}

/// Removing a server leaves what every other name finds unchanged.
pub proof fn lemma_remove_keeps_others(s: Seq<ServerView>, removed: Seq<char>, name: Seq<char>)
    requires
        !eq_ignore_ascii_case_spec(name, removed),
    ensures
        find_server(without_server(s, removed), name) == find_server(s, name),
    decreases s.len(),
{
    let pred = other_name(removed);
    reveal_with_fuel(Seq::<_>::filter, 1);
    if s.len() == 0 {
        assert(s.filter(pred) =~= s);
    } else {
        let init = s.drop_last();
        let x = s.last();
        assert(init.push(x) =~= s);
        lemma_remove_keeps_others(init, removed, name);
        lemma_find_push(init, x, name);
        if pred(x) {
            lemma_find_push(init.filter(pred), x, name);
        } else {
            assert(!name_matches(x, name));
        }
    }
}

fn position_of(servers: &Vec<ServerConfigEntry>, name: &str) -> (r: Option<usize>)
    ensures
        match r {
            Some(i) => first_match(servers_view(servers@), name@) == Some(i as int) && (i as int)
                < servers@.len(),
            None => first_match(servers_view(servers@), name@) is None,
        },
{
    let ghost sv = servers_view(servers@);
    let mut i: usize = 0;
    while i < servers.len()
        invariant
            i <= servers.len(),
            sv == servers_view(servers@),
            first_match(sv, name@) == first_match_from(sv, name@, i as int),
        decreases servers.len() - i,
    {
        if eq_ignore_ascii_case(servers[i].name.as_str(), name) {
            assert(sv[i as int] == servers@[i as int]@);
            return Some(i);
        }
        assert(sv[i as int] == servers@[i as int]@);
        i += 1;
    }
    None
}

/// std: `Path::exists` on `path`. The answer depends on the file system at the
/// time of the call, so nothing is stated of it.
#[verifier::external_body]
fn path_exists(path: &str) -> (r: bool) {
    std::path::Path::new(path).exists()
}

/// Locates and updates the user configuration (`mustel.jsonc`).
pub struct UserConfigService {
    config_file_path: String,
}

impl UserConfigService {
    /// The configuration file path this service reads and writes.
    pub closed spec fn path(&self) -> Seq<char> {
        self.config_file_path@
    }

    /// A service over the configuration file at `config_file_path`.
    pub fn new(config_file_path: String) -> (r: Self)
        ensures
            r.path() == config_file_path@,
    {
        UserConfigService { config_file_path }
    }

    /// Chooses the configuration file: `mustel_path` when that file exists,
    /// else `legacy_path` (the FurLab file) when it exists, else `mustel_path`;
    /// `mustel.jsonc` when the OS gives no configuration directory.
    pub fn resolve_config_path(
        mustel_path: Option<String>,
        mustel_exists: bool,
        legacy_path: Option<String>,
        legacy_exists: bool,
    ) -> (r: String)
        ensures
            r@ == config_path_choice(
                crate::text::opt_view(mustel_path),
                mustel_exists,
                crate::text::opt_view(legacy_path),
                legacy_exists,
            ),
    {
        match mustel_path {
            Some(p) => {
                if mustel_exists {
                    return p;
                }
                match legacy_path {
                    Some(l) => if legacy_exists {
                        l
                    } else {
                        p
                    },
                    None => p,
                }
            },
            None => {
                proof {
                    reveal_strlit("mustel.jsonc");
                }
                String::from_str("mustel.jsonc")
            },
        }
    }

    /// Whether a file mode lets others than the owner at the file: any of the
    /// bits `0o047` (group read, any access by others). Such a configuration
    /// file gets a warning, since it may hold credentials.
    pub fn insecure_mode(mode: u32) -> (r: bool)
        ensures
            r == (mode & 0o47u32 != 0),
    {
        mode & 0o47u32 != 0
    }

    /// Whether the configuration file exists at the moment of the call.
    pub fn config_file_exists(&self) -> (r: bool) {
        path_exists(self.config_file_path.as_str())
    }

    /// The configuration file path.
    pub fn get_config_file_path(&self) -> (r: &String)
        ensures
            r@ == self.path(),
    {
        &self.config_file_path
    }

    /// All configured servers.
    pub fn get_servers(&self, config: &UserConfig) -> (r: Vec<ServerConfigEntry>)
        ensures
            servers_view(r@) == config@.servers,
    {
        duplicate_servers(&config.servers)
    }

    /// The first server whose name matches `name`, ignoring ASCII case.
    pub fn get_server(&self, config: &UserConfig, name: &str) -> (r: Option<ServerConfigEntry>)
        ensures
            match r {
                Some(e) => find_server(config@.servers, name@) == Some(e@),
                None => find_server(config@.servers, name@) is None,
            },
    {
        match position_of(&config.servers, name) {
            Some(i) => Some(config.servers[i].duplicate()),
            None => None,
        }
    }

    /// Stores `server`: replaces the first entry with the same name (ignoring
    /// ASCII case), or appends it.
    pub fn add_or_update_server(&self, config: &mut UserConfig, server: ServerConfigEntry)
        ensures
            final(config)@.servers == upsert_server(old(config)@.servers, server@),
            final(config)@.defaults == old(config)@.defaults,
    {
        match position_of(&config.servers, server.name.as_str()) {
            Some(i) => {
                let ghost before = config.servers@;
                config.servers.set(i, server);
                assert(servers_view(config.servers@) =~= servers_view(before).update(
                    i as int,
                    server@,
                ));
            },
            None => {
                let ghost before = config.servers@;
                config.servers.push(server);
                assert(servers_view(config.servers@) =~= servers_view(before).push(server@));
            },
        }
    }

    /// Removes every entry named `name` (ignoring ASCII case); returns whether
    /// any was removed.
    pub fn remove_server(&self, config: &mut UserConfig, name: &str) -> (removed: bool)
        ensures
            final(config)@.servers == without_server(old(config)@.servers, name@),
            final(config)@.defaults == old(config)@.defaults,
            removed == (first_match(old(config)@.servers, name@) is Some),
            removed == (final(config)@.servers.len() < old(config)@.servers.len()),
    {
        let ghost sv = servers_view(config.servers@);
        let ghost pred = other_name(name@);
        let mut kept: Vec<ServerConfigEntry> = Vec::new();
        let mut i: usize = 0;
        let n = config.servers.len();
        assert(sv.take(0) =~= Seq::<ServerView>::empty());
        while i < n
            invariant
                n == config.servers.len(),
                sv == servers_view(config.servers@),
                i <= n,
                servers_view(kept@) == sv.take(i as int).filter(pred),
                pred == other_name(name@),
            decreases n - i,
        {
            reveal_with_fuel(Seq::<_>::filter, 1);
            assert(sv.take(i + 1).drop_last() =~= sv.take(i as int));
            assert(sv.take(i + 1).last() == sv[i as int]);
            assert(sv[i as int] == config.servers@[i as int]@);
            assert(pred(sv[i as int]) == !name_matches(sv[i as int], name@));
            if !eq_ignore_ascii_case(config.servers[i].name.as_str(), name) {
                let e = config.servers[i].duplicate();
                let ghost old_kept = kept@;
                kept.push(e);
                assert(servers_view(kept@) =~= servers_view(old_kept).push(sv[i as int]));
            }
            i += 1;
        }
        assert(sv.take(n as int) =~= sv);
        proof {
            sv.lemma_filter_len(pred);
        }
        let removed = kept.len() < n;
        proof {
            if first_match(sv, name@) is Some {
                lemma_first_match_from_found(sv, name@, 0);
                let j = first_match(sv, name@)->0;
                lemma_filter_misses(sv, pred, j);
            } else {
                lemma_first_match_from_none(sv, name@, 0);
                assert forall|j: int| 0 <= j < sv.len() implies pred(#[trigger] sv[j]) by {}
                lemma_filter_all(sv, pred);
            }
        }
        config.servers = kept;
        removed
    }

    /// Sets the encrypted password of the first entry named `server_name`
    /// (ignoring ASCII case) and clears its plaintext password; fails when no
    /// entry has that name.
    pub fn set_encrypted_password(
        &self,
        config: &mut UserConfig,
        server_name: &str,
        encrypted_password: String,
    ) -> (r: Result<(), MustelError>)
        ensures
            r is Ok <==> first_match(old(config)@.servers, server_name@) is Some,
            r is Ok ==> ({
                let i = first_match(old(config)@.servers, server_name@)->0;
                final(config)@.servers == old(config)@.servers.update(
                    i,
                    with_encrypted(old(config)@.servers[i], encrypted_password@),
                )
            }),
            r matches Err(e) ==> e@ == ErrorView::Config(msg_server_not_found(server_name@))
                && final(config)@ == old(config)@,
            final(config)@.defaults == old(config)@.defaults,
    {
        match position_of(&config.servers, server_name) {
            Some(i) => {
                let ghost before = servers_view(config.servers@);
                let mut entry = config.servers[i].duplicate();
                entry.encrypted_password = Some(encrypted_password);
                entry.password = None;
                config.servers.set(i, entry);
                assert(servers_view(config.servers@) =~= before.update(
                    i as int,
                    with_encrypted(before[i as int], encrypted_password@),
                ));
                Ok(())
            },
            None => {
                proof {
                    reveal_strlit("Server '");
                    reveal_strlit("' not found");
                }
                Err(MustelError::Config(concat3("Server '", server_name, "' not found")))
            },
        }
    }

    /// The default settings.
    pub fn get_defaults(&self, config: &UserConfig) -> (r: UserDefaults)
        ensures
            r@ == config@.defaults,
    {
        config.defaults.duplicate()
    }
}

proof fn lemma_filter_misses(s: Seq<ServerView>, pred: spec_fn(ServerView) -> bool, j: int)
    requires
        0 <= j < s.len(),
        !pred(s[j]),
    ensures
        s.filter(pred).len() < s.len(),
    decreases s.len(),
{
    reveal_with_fuel(Seq::<_>::filter, 1);
    let init = s.drop_last();
    init.lemma_filter_len(pred);
    if j < s.len() - 1 {
        assert(init[j] == s[j]);
        lemma_filter_misses(init, pred, j);
    }
}

proof fn lemma_filter_all(s: Seq<ServerView>, pred: spec_fn(ServerView) -> bool)
    requires
        forall|j: int| 0 <= j < s.len() ==> pred(#[trigger] s[j]),
    ensures
        s.filter(pred) == s,
    decreases s.len(),
{
    reveal_with_fuel(Seq::<_>::filter, 1);
    if s.len() > 0 {
        let init = s.drop_last();
        assert forall|j: int| 0 <= j < init.len() implies pred(#[trigger] init[j]) by {
            assert(init[j] == s[j]);
        }
        lemma_filter_all(init, pred);
        assert(init.push(s[s.len() - 1]) =~= s);
    }
}

} // verus!
