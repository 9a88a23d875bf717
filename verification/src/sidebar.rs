//! The connection list of the desktop interface.
use vstd::prelude::*;

use crate::models::{servers_view, ServerConfigEntry, ServerView};
use crate::text::{append, concat2, decimal, decimal_string, str_equal, string_views};

verus! {

/// The saved servers and the one queries run on.
#[derive(Debug)]
pub struct ConnectionSidebarState {
    pub selected_server: Option<ServerConfigEntry>,
    pub server_list: Vec<ServerConfigEntry>,
}

/// The entry offered when nothing is configured.
pub open spec fn local_server() -> ServerView {
    ServerView {
        name: "localhost"@,
        host: "localhost"@,
        port: 5432,
        username: "postgres"@,
        password: None,
        encrypted_password: None,
        databases: Some(seq!["postgres"@]),
        fetch_all_databases: None,
        exclude_patterns: None,
        ssl_mode: None,
        timeout: Some(30),
        command_timeout: Some(300),
        max_parallelism: None,
    }
}

pub open spec fn opt_server_view(s: Option<ServerConfigEntry>) -> Option<ServerView> {
    match s {
        Some(e) => Some(e@),
        None => None,
    }
}

/// The first entry whose name is exactly `name`.
pub open spec fn first_named_from(s: Seq<ServerView>, name: Seq<char>, i: int) -> Option<ServerView>
    decreases s.len() - i,
{
    if i < 0 || i >= s.len() {
        None
    } else if s[i].name == name {
        Some(s[i])
    } else {
        first_named_from(s, name, i + 1)
    }
}

/// The selection after the list changes: the entry with the previously
/// selected name if it is still there, else the first entry, else none.
pub open spec fn reselect(previous: Option<ServerView>, list: Seq<ServerView>) -> Option<ServerView> {
    let kept = match previous {
        Some(p) => first_named_from(list, p.name, 0),
        None => None,
    };
    match kept {
        Some(k) => Some(k),
        None => if list.len() > 0 {
            Some(list[0])
        } else {
            None
        },
    }
}

fn local_server_entry() -> (r: ServerConfigEntry)
    ensures
        r@ == local_server(),
{
    proof {
        reveal_strlit("localhost");
        reveal_strlit("postgres");
    }
    let mut dbs: Vec<String> = Vec::new();
    dbs.push(String::from_str("postgres"));
    assert(string_views(dbs@) =~= seq!["postgres"@]);
    ServerConfigEntry {
        name: String::from_str("localhost"),
        host: String::from_str("localhost"),
        port: 5432,
        username: String::from_str("postgres"),
        password: None,
        encrypted_password: None,
        databases: Some(dbs),
        fetch_all_databases: None,
        exclude_patterns: None,
        ssl_mode: None,
        timeout: Some(30),
        command_timeout: Some(300),
        max_parallelism: None,
    }
}

impl ConnectionSidebarState {
    /// The sidebar over the configured servers (a local default entry when
    /// there are none), with the first one selected.
    pub fn new(configured: Vec<ServerConfigEntry>) -> (r: Self)
        ensures
            servers_view(r.server_list@) == if configured@.len() == 0 {
                seq![local_server()]
            } else {
                servers_view(configured@)
            },
            opt_server_view(r.selected_server) == Some(servers_view(r.server_list@)[0]),
    {
        let list = if configured.len() == 0 {
            let mut v: Vec<ServerConfigEntry> = Vec::new();
            v.push(local_server_entry());
            assert(servers_view(v@) =~= seq![local_server()]);
            v
        } else {
            configured
        };
        let selected = Some(list[0].duplicate());
        ConnectionSidebarState { selected_server: selected, server_list: list }
    }

    /// Replaces the list, keeping the selection by name when possible.
    pub fn reload_servers(&mut self, servers: Vec<ServerConfigEntry>)
        ensures
            servers_view(final(self).server_list@) == servers_view(servers@),
            opt_server_view(final(self).selected_server) == reselect(
                opt_server_view(old(self).selected_server),
                servers_view(servers@),
            ),
    {
        let ghost sv = servers_view(servers@);
        let mut chosen: Option<ServerConfigEntry> = None;
        match &self.selected_server {
            Some(cur) => {
                let mut i: usize = 0;
                while i < servers.len()
                    invariant_except_break
                        chosen is None,
                    invariant
                        i <= servers.len(),
                        sv == servers_view(servers@),
                        first_named_from(sv, cur.name@, 0) == first_named_from(
                            sv,
                            cur.name@,
                            i as int,
                        ),
                    ensures
                        opt_server_view(chosen) == first_named_from(sv, cur.name@, 0),
                    decreases servers.len() - i,
                {
                    assert(sv[i as int] == servers@[i as int]@);
                    if str_equal(servers[i].name.as_str(), cur.name.as_str()) {
                        chosen = Some(servers[i].duplicate());
                        break;
                    }
                    i += 1;
                }
                assert(opt_server_view(chosen) == first_named_from(sv, cur.name@, 0));
            },
            None => {},
        }
        if chosen.is_none() && servers.len() > 0 {
            chosen = Some(servers[0].duplicate());
        }
        self.server_list = servers;
        self.selected_server = chosen;
    }

    /// Whether `server` is the selected one (compared by name).
    pub fn is_selected(&self, server: &ServerConfigEntry) -> (r: bool)
        ensures
            r == (self.selected_server matches Some(s) && s.name@ == server.name@),
    {
        match &self.selected_server {
            Some(s) => str_equal(s.name.as_str(), server.name.as_str()),
            None => false,
        }
    }

    /// The status line under the list.
    pub fn status_text(&self) -> (r: String)
        ensures
            r@ == match self.selected_server {
                Some(s) => "Ativo: "@ + s.name@ + " ("@ + s.host@ + ":"@ + decimal(s.port as nat)
                    + ")"@,
                None => "Status: Nenhum servidor selecionado"@,
            },
    {
        match &self.selected_server {
            Some(s) => {
                let mut t = concat2("Ativo: ", s.name.as_str());
                append(&mut t, " (");
                append(&mut t, s.host.as_str());
                append(&mut t, ":");
                let p = decimal_string(s.port as u128);
                append(&mut t, p.as_str());
                append(&mut t, ")");
                t
            },
            None => crate::text::copy_str("Status: Nenhum servidor selecionado"),
        }
    }
}

} // verus!
