//! The decisions around interactive prompts.
use vstd::prelude::*;

use crate::error::{ErrorView, MustelError};
use crate::models::{ServerConfigEntry, ServerView};
use crate::query_runner::entries_view;
use crate::text::{append, concat2, decimal, decimal_string, string_views};

verus! {

pub open spec fn msg_no_servers() -> Seq<char> {
    "No database servers configured. Use 'mustel settings db-servers add' to configure a server."@
}

/// The option shown for a server: `name (host:port)`.
pub open spec fn server_option_spec(s: ServerView) -> Seq<char> {
    s.name + " ("@ + s.host + ":"@ + decimal(s.port as nat) + ")"@
}

/// `label` starts with `prefix`.
pub open spec fn starts_with(label: Seq<char>, prefix: Seq<char>) -> bool {
    prefix.len() <= label.len() && label.subrange(0, prefix.len() as int) == prefix
}

/// The position of the first server whose name starts `label`.
pub open spec fn first_prefix_from(servers: Seq<ServerView>, label: Seq<char>, i: int) -> Option<int>
    decreases servers.len() - i,
{
    if i < 0 || i >= servers.len() {
        None
    } else if starts_with(label, servers[i].name) {
        Some(i)
    } else {
        first_prefix_from(servers, label, i + 1)
    }
}

/// The servers picked by the chosen labels, in the order of the labels;
/// labels that name no server are skipped.
pub open spec fn picked_servers(servers: Seq<ServerView>, labels: Seq<Seq<char>>) -> Seq<ServerView>
    decreases labels.len(),
{
    if labels.len() == 0 {
        Seq::empty()
    } else {
        let before = picked_servers(servers, labels.subrange(0, labels.len() - 1));
        match first_prefix_from(servers, labels[labels.len() - 1], 0) {
            Some(i) => before.push(servers[i]),
            None => before,
        }
    }
}

/// Terminal prompts.
pub struct UiPrompts;

impl UiPrompts {
    /// The choice offered before prompting: none configured is an error, a
    /// single server is taken without asking; `None` means the user picks.
    pub fn preselect_servers(available: &Vec<ServerConfigEntry>) -> (r: Result<
        Option<Vec<ServerConfigEntry>>,
        MustelError,
    >)
        ensures
            available@.len() == 0 ==> (r matches Err(e) && e@ == ErrorView::Config(msg_no_servers())),
            available@.len() == 1 ==> (r matches Ok(Some(v)) && entries_view(v@) == entries_view(
                available@,
            )),
            available@.len() > 1 ==> (r matches Ok(None)),
    {
        if available.len() == 0 {
            proof {
                reveal_strlit(
                    "No database servers configured. Use 'mustel settings db-servers add' to configure a server.",
                );
            }
            return Err(
                MustelError::Config(
                    crate::text::copy_str(
                        "No database servers configured. Use 'mustel settings db-servers add' to configure a server.",
                    ),
                ),
            );
        }
        if available.len() == 1 {
            let mut v: Vec<ServerConfigEntry> = Vec::new();
            v.push(available[0].duplicate());
            assert(entries_view(v@) =~= entries_view(available@));
            return Ok(Some(v));
        }
        Ok(None)
    }

    /// The option text for a server.
    pub fn server_option(s: &ServerConfigEntry) -> (r: String)
        ensures
            r@ == server_option_spec(s@),
    {
        proof {
            reveal_strlit(" (");
            reveal_strlit(":");
            reveal_strlit(")");
        }
        let mut t = concat2(s.name.as_str(), " (");
        append(&mut t, s.host.as_str());
        append(&mut t, ":");
        let p = decimal_string(s.port as u128);
        append(&mut t, p.as_str());
        append(&mut t, ")");
        t
    }

    /// The servers picked by the labels the user chose; an empty pick counts
    /// as a cancellation.
    pub fn servers_for_selection(available: &Vec<ServerConfigEntry>, selected: &Vec<String>) -> (r:
        Result<Vec<ServerConfigEntry>, MustelError>)
        ensures
            ({
                let picked = picked_servers(entries_view(available@), string_views(selected@));
                if picked.len() == 0 {
                    r matches Err(e) && e@ == ErrorView::UserCancelled
                } else {
                    r matches Ok(v) && entries_view(v@) == picked
                }
            }),
    {
        let ghost sv = entries_view(available@);
        let ghost lv = string_views(selected@);
        let mut result: Vec<ServerConfigEntry> = Vec::new();
        let mut i: usize = 0;
        assert(lv.subrange(0, 0) =~= Seq::<Seq<char>>::empty());
        assert(entries_view(result@) =~= Seq::<ServerView>::empty());
        while i < selected.len()
            invariant
                i <= selected.len(),
                sv == entries_view(available@),
                lv == string_views(selected@),
                entries_view(result@) == picked_servers(sv, lv.subrange(0, i as int)),
            decreases selected.len() - i,
        {
            assert(lv.subrange(0, i + 1).subrange(0, i as int) =~= lv.subrange(0, i as int));
            assert(lv[i as int] == selected@[i as int]@);
            match Self::find_prefix(available, selected[i].as_str()) {
                Some(k) => {
                    let e = available[k].duplicate();
                    let ghost before = result@;
                    result.push(e);
                    assert(entries_view(result@) =~= entries_view(before).push(sv[k as int]));
                },
                None => {},
            }
            i += 1;
        }
        assert(lv.subrange(0, selected@.len() as int) =~= lv);
        if result.len() == 0 {
            return Err(MustelError::UserCancelled);
        }
        Ok(result)
    }

    fn find_prefix(available: &Vec<ServerConfigEntry>, label: &str) -> (r: Option<usize>)
        ensures
            match r {
                Some(k) => first_prefix_from(entries_view(available@), label@, 0) == Some(
                    k as int,
                ) && (k as int) < available@.len(),
                None => first_prefix_from(entries_view(available@), label@, 0) is None,
            },
    {
        let ghost sv = entries_view(available@);
        let lv = crate::text::chars_of(label);
        let mut i: usize = 0;
        while i < available.len()
            invariant
                i <= available.len(),
                sv == entries_view(available@),
                lv@ == label@,
                first_prefix_from(sv, label@, 0) == first_prefix_from(sv, label@, i as int),
            decreases available.len() - i,
        {
            assert(sv[i as int] == available@[i as int]@);
            if Self::has_prefix(&lv, available[i].name.as_str()) {
                return Some(i);
            }
            i += 1;
        }
        None
    }

    fn has_prefix(label: &Vec<char>, prefix: &str) -> (r: bool)
        ensures
            r == starts_with(label@, prefix@),
    {
        let pv = crate::text::chars_of(prefix);
        if pv.len() > label.len() {
            return false;
        }
        let mut i: usize = 0;
        while i < pv.len()
            invariant
                pv@ == prefix@,
                pv.len() <= label.len(),
                i <= pv.len(),
                forall|j: int| 0 <= j < i ==> label@[j] == pv@[j],
            decreases pv.len() - i,
        {
            if label[i] != pv[i] {
                assert(label@.subrange(0, pv@.len() as int)[i as int] != prefix@[i as int]);
                return false;
            }
            i += 1;
        }
        assert(label@.subrange(0, pv@.len() as int) =~= prefix@);
        true
    }
}

} // verus!
