//! Checks on user-supplied paths and database identifiers.
use vstd::prelude::*;

use crate::error::{unit_result_view, ErrorView, MustelError};
use crate::text::{append, char_is_alphabetic, char_is_alphanumeric, chars_of, concat3, contains_char, contains_seq, contains_str, to_lowercase, alphabetic, alphanumeric, str_lowercase};

verus! {

/// std: `Path::canonicalize` of `path`, rendered with `to_string_lossy`.
/// The answer depends on the file system at the time of the call, so nothing
/// is stated of it.
#[verifier::external_body]
fn canonical_form(path: &str) -> (r: Option<String>) {
    std::path::Path::new(path).canonicalize().ok().map(|p| p.to_string_lossy().into_owned())
}

pub open spec fn msg_traversal(path: Seq<char>) -> Seq<char> {
    "Invalid path '"@ + path + "': Path traversal is not allowed"@
}

pub open spec fn msg_null_byte(path: Seq<char>) -> Seq<char> {
    "Invalid path '"@ + path + "': Contains null byte"@
}

pub open spec fn msg_symlink(canonical: Seq<char>) -> Seq<char> {
    "Invalid path resolved to '"@ + canonical + "': Symlink path traversal detected"@
}

/// The verdict on a path, given its canonical form when it could be resolved.
pub open spec fn path_check(path: Seq<char>, canonical: Option<Seq<char>>) -> Result<(), ErrorView> {
    if contains_seq(path, ".."@) {
        Err(ErrorView::Security(msg_traversal(path)))
    } else if path.contains('\0') {
        Err(ErrorView::Security(msg_null_byte(path)))
    } else {
        match canonical {
            Some(c) => if contains_seq(c, ".."@) {
                Err(ErrorView::Security(msg_symlink(c)))
            } else {
                Ok(())
            },
            None => Ok(()),
        }
    }
}

/// `r` is the verdict `path_check` gives for `path` with some canonical form
/// (or none, when the path does not resolve).
pub open spec fn path_outcome(path: Seq<char>, r: Result<(), ErrorView>) -> bool {
    exists|c: Option<Seq<char>>| r == #[trigger] path_check(path, c)
}

pub open spec fn msg_empty_identifier() -> Seq<char> {
    "Database identifier cannot be empty"@
}

pub open spec fn msg_disallowed(name: Seq<char>) -> Seq<char> {
    "Invalid database identifier '"@ + name + "': Contains disallowed characters"@
}

pub open spec fn msg_injection(name: Seq<char>, keyword: Seq<char>) -> Seq<char> {
    "Invalid database identifier '"@ + name + "': Contains SQL injection pattern '"@ + keyword
        + "'"@
}

/// The character at position `i` is allowed: a letter or `_` first, then
/// letters, digits, `_` or `-`.
pub open spec fn identifier_char_ok(i: int, c: char) -> bool {
    if i == 0 {
        alphabetic(c) || c == '_'
    } else {
        alphanumeric(c) || c == '_' || c == '-'
    }
}

pub open spec fn identifier_chars_ok(s: Seq<char>) -> bool {
    forall|i: int| 0 <= i < s.len() ==> identifier_char_ok(i, #[trigger] s[i])
}

/// The patterns an identifier must not contain (after lowercasing), in the
/// order they are checked.
pub open spec fn sql_keywords_spec() -> Seq<Seq<char>> {
    seq![
        "select"@,
        "insert"@,
        "update"@,
        "delete"@,
        "drop"@,
        "create"@,
        "alter"@,
        "truncate"@,
        "exec"@,
        "execute"@,
        "union"@,
        "--"@,
        ";"@,
        "/*"@,
        "*/"@,
        "'"@,
        "\""@,
        "\\x00"@,
        "\0"@,
    ]
}

/// The first pattern of `kws`, from position `k` on, that occurs in `lower`.
pub open spec fn first_keyword_from(lower: Seq<char>, kws: Seq<Seq<char>>, k: int) -> Option<
    Seq<char>,
>
    decreases kws.len() - k,
{
    if k < 0 || k >= kws.len() {
        None
    } else if contains_seq(lower, kws[k]) {
        Some(kws[k])
    } else {
        first_keyword_from(lower, kws, k + 1)
    }
}

/// The verdict on a database identifier.
pub open spec fn identifier_check(name: Seq<char>) -> Result<(), ErrorView> {
    if name.len() == 0 {
        Err(ErrorView::Security(msg_empty_identifier()))
    } else if !identifier_chars_ok(name) {
        Err(ErrorView::Security(msg_disallowed(name)))
    } else {
        match first_keyword_from(str_lowercase(name), sql_keywords_spec(), 0) {
            Some(kw) => Err(ErrorView::Security(msg_injection(name, kw))),
            None => Ok(()),
        }
    }
}

fn sql_keywords() -> (r: Vec<String>)
    ensures
        crate::text::string_views(r@) == sql_keywords_spec(),
{
    let mut v: Vec<String> = Vec::new();
    v.push(String::from_str("select"));
    v.push(String::from_str("insert"));
    v.push(String::from_str("update"));
    v.push(String::from_str("delete"));
    v.push(String::from_str("drop"));
    v.push(String::from_str("create"));
    v.push(String::from_str("alter"));
    v.push(String::from_str("truncate"));
    v.push(String::from_str("exec"));
    v.push(String::from_str("execute"));
    v.push(String::from_str("union"));
    v.push(String::from_str("--"));
    v.push(String::from_str(";"));
    v.push(String::from_str("/*"));
    v.push(String::from_str("*/"));
    v.push(String::from_str("'"));
    v.push(String::from_str("\""));
    v.push(String::from_str("\\x00"));
    v.push(String::from_str("\0"));
    assert(crate::text::string_views(v@) =~= sql_keywords_spec());
    v
}

/// Path and identifier checks.
pub struct SecurityUtils;

impl SecurityUtils {
    /// The checks of `validate_path` once the canonical form (if any) is known.
    pub fn check_path(path: &str, canonical: Option<&str>) -> (r: Result<(), MustelError>)
        ensures
            unit_result_view(r) == path_check(
                path@,
                match canonical {
                    Some(c) => Some(c@),
                    None => None,
                },
            ),
    {
        proof {
            reveal_strlit("..");
            reveal_strlit("Invalid path '");
            reveal_strlit("': Path traversal is not allowed");
            reveal_strlit("': Contains null byte");
            reveal_strlit("Invalid path resolved to '");
            reveal_strlit("': Symlink path traversal detected");
        }
        if contains_str(path, "..") {
            return Err(MustelError::Security(concat3("Invalid path '", path, "': Path traversal is not allowed")));
        }
        if contains_char(path, '\0') {
            return Err(MustelError::Security(concat3("Invalid path '", path, "': Contains null byte")));
        }
        match canonical {
            Some(c) => {
                if contains_str(c, "..") {
                    return Err(MustelError::Security(concat3("Invalid path resolved to '", c, "': Symlink path traversal detected")));
                }
            },
            None => {},
        }
        // A path without ".." has no parent directory containing "..", so the
        // parent of a path that does not resolve needs no further check.
        Ok(())
    }

    /// Validates a file path against directory traversal: no `..`, no NUL
    /// byte, and a canonical form (when the path resolves) without `..`.
    pub fn validate_path(path: &str) -> (r: Result<(), MustelError>)
        ensures
            path_outcome(path@, unit_result_view(r)),
            contains_seq(path@, ".."@) ==> unit_result_view(r) == Err::<(), ErrorView>(
                ErrorView::Security(msg_traversal(path@)),
            ),
            !contains_seq(path@, ".."@) && path@.contains('\0') ==> unit_result_view(r) == Err::<
                (),
                ErrorView,
            >(ErrorView::Security(msg_null_byte(path@))),
    {
        if contains_str(path, "..") || contains_char(path, '\0') {
            let r = Self::check_path(path, None);
            assert(unit_result_view(r) == path_check(path@, None));
            return r;
        }
        let canonical = canonical_form(path);
        match canonical {
            Some(c) => {
                let r = Self::check_path(path, Some(c.as_str()));
                assert(unit_result_view(r) == path_check(path@, Some(c@)));
                r
            },
            None => {
                let r = Self::check_path(path, None);
                assert(unit_result_view(r) == path_check(path@, None));
                r
            },
        }
    }

    /// Validates a database identifier: nonempty, a letter or `_` first, then
    /// letters, digits, `_` or `-`, and none of the SQL injection patterns
    /// anywhere in its lowercase form.
    pub fn validate_identifier(name: &str) -> (r: Result<(), MustelError>)
        ensures
            unit_result_view(r) == identifier_check(name@),
    {
        proof {
            reveal_strlit("Database identifier cannot be empty");
            reveal_strlit("Invalid database identifier '");
            reveal_strlit("': Contains disallowed characters");
            reveal_strlit("': Contains SQL injection pattern '");
            reveal_strlit("'");
        }
        if name.is_empty() {
            return Err(MustelError::Security(String::from_str("Database identifier cannot be empty")));
        }
        let v = chars_of(name);
        let mut i: usize = 0;
        while i < v.len()
            invariant
                v@ == name@,
                i <= v.len(),
                forall|j: int| 0 <= j < i ==> identifier_char_ok(j, #[trigger] v@[j]),
            decreases v.len() - i,
        {
            let c = v[i];
            let ok = if i == 0 {
                char_is_alphabetic(c) || c == '_'
            } else {
                char_is_alphanumeric(c) || c == '_' || c == '-'
            };
            if !ok {
                assert(!identifier_char_ok(i as int, name@[i as int]));
                return Err(MustelError::Security(concat3("Invalid database identifier '", name, "': Contains disallowed characters")));
            }
            i += 1;
        }
        assert(identifier_chars_ok(name@));
        let lower = to_lowercase(name);
        let keywords = sql_keywords();
        let mut k: usize = 0;
        while k < keywords.len()
            invariant
                k <= keywords.len(),
                crate::text::string_views(keywords@) == sql_keywords_spec(),
                first_keyword_from(str_lowercase(name@), sql_keywords_spec(), 0)
                    == first_keyword_from(str_lowercase(name@), sql_keywords_spec(), k as int),
                lower@ == str_lowercase(name@),
                identifier_chars_ok(name@),
                name@.len() > 0,
            decreases keywords.len() - k,
        {
            assert(keywords@[k as int]@ == sql_keywords_spec()[k as int]);
            if contains_str(lower.as_str(), keywords[k].as_str()) {
                let mut msg = concat3(
                    "Invalid database identifier '",
                    name,
                    "': Contains SQL injection pattern '",
                );
                append(&mut msg, keywords[k].as_str());
                append(&mut msg, "'");
                return Err(MustelError::Security(msg));
            }
            k += 1;
        }
        Ok(())
    }
}

} // verus!
