//! Classification of SQL text as read-only or destructive.
use vstd::prelude::*;

use sqlparser::dialect::PostgreSqlDialect;
use sqlparser::parser::Parser;

use crate::text::{contains_seq, contains_str, lemma_split_nonempty, split_char, split_seq, str_equal, str_uppercase, string_views, to_uppercase};

verus! {

/// The verdict on a query: harmless, or destructive with the operation's name.
#[derive(Debug, Clone)]
pub enum QueryType {
    ReadOnly,
    Destructive(String),
}

/// The statement kinds that the analyzer tells apart.
#[derive(Debug, Clone, Copy, PartialEq, Eq)]
pub enum StatementKind {
    Delete,
    Drop,
    Truncate,
    Update,
    AlterTable,
    AlterOther,
    Insert,
    CreateDatabase,
    CreateTable,
    Other,
}

/// The statements that sqlparser's PostgreSQL dialect reads in `sql`, each as
/// sqlparser writes it back (`Display`: canonical SQL with upper-case
/// keywords), in order, or `None` when it rejects the text.
pub uninterp spec fn parsed_statement_texts(sql: Seq<char>) -> Option<Seq<Seq<char>>>;

/// sqlparser: `Parser::parse_sql(&PostgreSqlDialect {}, sql)`, each statement
/// written back with its `Display`. Named, not restated: the grammar and the
/// rendering are sqlparser's.
#[verifier::external_body]
fn parse_statement_texts(sql: &str) -> (r: Option<Vec<String>>)
    ensures
        match r {
            Some(v) => parsed_statement_texts(sql@) == Some(crate::text::string_views(v@)),
            None => parsed_statement_texts(sql@) is None,
        },
{
    let statements = Parser::parse_sql(&PostgreSqlDialect {}, sql).ok()?;
    Some(statements.iter().map(|s| s.to_string()).collect())
}

/// Words that may stand between `CREATE` and `TABLE` in a written-back
/// `CREATE TABLE`.
pub open spec fn table_modifier(w: Seq<char>) -> bool {
    w == "OR"@ || w == "REPLACE"@ || w == "EXTERNAL"@ || w == "GLOBAL"@ || w == "LOCAL"@ || w
        == "TEMPORARY"@ || w == "TRANSIENT"@ || w == "VOLATILE"@ || w == "DYNAMIC"@ || w
        == "ICEBERG"@ || w == "SNAPSHOT"@
}

/// From word `i` on, only table modifiers come before a `TABLE` word.
pub open spec fn table_after_modifiers(words: Seq<Seq<char>>, i: int) -> bool
    decreases words.len() - i,
{
    if i < 0 || i >= words.len() {
        false
    } else if words[i] == "TABLE"@ {
        true
    } else if table_modifier(words[i]) {
        table_after_modifiers(words, i + 1)
    } else {
        false
    }
}

/// The kind of a written-back statement, by its leading keywords: any
/// `DELETE`, `DROP`, `TRUNCATE`, `UPDATE` or `INSERT`; `ALTER TABLE` apart from
/// every other `ALTER`; `CREATE DATABASE`; `CREATE [modifiers] TABLE`.
pub open spec fn kind_of_text(t: Seq<char>) -> StatementKind {
    let w = split_seq(t, ' ');
    let w0 = w[0];
    if w0 == "DELETE"@ {
        StatementKind::Delete
    } else if w0 == "DROP"@ {
        StatementKind::Drop
    } else if w0 == "TRUNCATE"@ {
        StatementKind::Truncate
    } else if w0 == "UPDATE"@ {
        StatementKind::Update
    } else if w0 == "INSERT"@ {
        StatementKind::Insert
    } else if w0 == "ALTER"@ {
        if w.len() > 1 && w[1] == "TABLE"@ {
            StatementKind::AlterTable
        } else {
            StatementKind::AlterOther
        }
    } else if w0 == "CREATE"@ {
        if w.len() > 1 && w[1] == "DATABASE"@ {
            StatementKind::CreateDatabase
        } else if table_after_modifiers(w, 1) {
            StatementKind::CreateTable
        } else {
            StatementKind::Other
        }
    } else {
        StatementKind::Other
    }
}

/// The kinds of the statements that sqlparser reads in `sql`, in order, or
/// `None` when it rejects the text.
pub open spec fn parsed_statement_kinds(sql: Seq<char>) -> Option<Seq<StatementKind>> {
    match parsed_statement_texts(sql) {
        Some(t) => Some(t.map_values(|x: Seq<char>| kind_of_text(x))),
        None => None,
    }
}

fn word_is(words: &Vec<String>, i: usize, w: &str) -> (r: bool)
    ensures
        r == (i < words@.len() && words@[i as int]@ == w@),
{
    i < words.len() && str_equal(words[i].as_str(), w)
}

fn is_table_modifier(w: &str) -> (r: bool)
    ensures
        r == table_modifier(w@),
{
    str_equal(w, "OR") || str_equal(w, "REPLACE") || str_equal(w, "EXTERNAL") || str_equal(
        w,
        "GLOBAL",
    ) || str_equal(w, "LOCAL") || str_equal(w, "TEMPORARY") || str_equal(w, "TRANSIENT")
        || str_equal(w, "VOLATILE") || str_equal(w, "DYNAMIC") || str_equal(w, "ICEBERG")
        || str_equal(w, "SNAPSHOT")
}

/// The kind of one written-back statement.
pub fn statement_kind(t: &str) -> (k: StatementKind)
    ensures
        k == kind_of_text(t@),
{
    let words = split_char(t, ' ');
    let ghost w = string_views(words@);
    proof {
        lemma_split_nonempty(t@, ' ');
        assert(w[0] == words@[0]@);
    }
    if word_is(&words, 0, "DELETE") {
        StatementKind::Delete
    } else if word_is(&words, 0, "DROP") {
        StatementKind::Drop
    } else if word_is(&words, 0, "TRUNCATE") {
        StatementKind::Truncate
    } else if word_is(&words, 0, "UPDATE") {
        StatementKind::Update
    } else if word_is(&words, 0, "INSERT") {
        StatementKind::Insert
    } else if word_is(&words, 0, "ALTER") {
        proof {
            if w.len() > 1 {
                assert(w[1] == words@[1]@);
            }
        }
        if word_is(&words, 1, "TABLE") {
            StatementKind::AlterTable
        } else {
            StatementKind::AlterOther
        }
    } else if word_is(&words, 0, "CREATE") {
        proof {
            if w.len() > 1 {
                assert(w[1] == words@[1]@);
            }
        }
        if word_is(&words, 1, "DATABASE") {
            StatementKind::CreateDatabase
        } else {
            let mut i: usize = 1;
            let mut found = false;
            while i < words.len()
                invariant_except_break
                    1 <= i <= words.len(),
                    table_after_modifiers(w, 1) == table_after_modifiers(w, i as int),
                    !found,
                invariant
                    w == string_views(words@),
                ensures
                    found == table_after_modifiers(w, 1),
                decreases words.len() - i,
            {
                assert(w[i as int] == words@[i as int]@);
                if str_equal(words[i].as_str(), "TABLE") {
                    found = true;
                    break;
                }
                if !is_table_modifier(words[i].as_str()) {
                    break;
                }
                i += 1;
            }
            if found {
                StatementKind::CreateTable
            } else {
                StatementKind::Other
            }
        }
    } else {
        StatementKind::Other
    }
}

/// The kinds of the statements of `sql`, or `None` when sqlparser rejects it.
fn parse_statement_kinds(sql: &str) -> (r: Option<Vec<StatementKind>>)
    ensures
        match r {
            Some(v) => parsed_statement_kinds(sql@) == Some(v@),
            None => parsed_statement_kinds(sql@) is None,
        },
{
    let texts = match parse_statement_texts(sql) {
        Some(t) => t,
        None => {
            return None;
        },
    };
    let ghost tv = string_views(texts@);
    let mut kinds: Vec<StatementKind> = Vec::new();
    let mut i: usize = 0;
    while i < texts.len()
        invariant
            i <= texts.len(),
            tv == string_views(texts@),
            kinds@ == tv.map_values(|x: Seq<char>| kind_of_text(x)).take(i as int),
        decreases texts.len() - i,
    {
        let k = statement_kind(texts[i].as_str());
        assert(tv[i as int] == texts@[i as int]@);
        kinds.push(k);
        i += 1;
        assert(kinds@ =~= tv.map_values(|x: Seq<char>| kind_of_text(x)).take(i as int));
    }
    assert(tv.map_values(|x: Seq<char>| kind_of_text(x)).take(texts@.len() as int) =~= tv.map_values(
        |x: Seq<char>| kind_of_text(x),
    ));
    Some(kinds)
}

/// The operation name reported for a statement kind, if it changes state.
pub open spec fn kind_label(k: StatementKind) -> Option<Seq<char>> {
    match k {
        StatementKind::Delete => Some("DELETE"@),
        StatementKind::Drop => Some("DROP"@),
        StatementKind::Truncate => Some("TRUNCATE"@),
        StatementKind::Update => Some("UPDATE"@),
        StatementKind::AlterTable => Some("ALTER TABLE"@),
        StatementKind::AlterOther => Some("ALTER"@),
        StatementKind::Insert => Some("INSERT"@),
        StatementKind::CreateDatabase => Some("CREATE"@),
        StatementKind::CreateTable => Some("CREATE"@),
        StatementKind::Other => None,
    }
}

/// The label of the first state-changing statement, if any.
pub open spec fn first_destructive(kinds: Seq<StatementKind>) -> Option<Seq<char>>
    decreases kinds.len(),
{
    if kinds.len() == 0 {
        None
    } else {
        match kind_label(kinds[0]) {
            Some(l) => Some(l),
            None => first_destructive(kinds.subrange(1, kinds.len() as int)),
        }
    }
}

/// The text patterns consulted when the parser rejects the query; `upper` is
/// the query in upper case.
pub open spec fn fallback_label(upper: Seq<char>) -> Option<Seq<char>> {
    if contains_seq(upper, "DELETE FROM"@) || contains_seq(upper, "DROP TABLE"@) || contains_seq(
        upper,
        "DROP DATABASE"@,
    ) {
        Some("DELETE/DROP"@)
    } else if contains_seq(upper, "TRUNCATE "@) {
        Some("TRUNCATE"@)
    } else if contains_seq(upper, "UPDATE "@) && contains_seq(upper, " SET "@) {
        Some("UPDATE"@)
    } else if contains_seq(upper, "ALTER TABLE"@) {
        Some("ALTER TABLE"@)
    } else {
        None
    }
}

/// How a query is judged. The statements decide when sqlparser reads the
/// query, the upper-case patterns decide otherwise. `None` means read-only.
pub open spec fn analysis(parsed: Option<Seq<StatementKind>>, upper: Seq<char>) -> Option<Seq<char>> {
    match parsed {
        Some(kinds) => first_destructive(kinds),
        None => fallback_label(upper),
    }
}

/// `None` for `ReadOnly`, the operation's name for `Destructive`.
pub open spec fn query_type_label(q: QueryType) -> Option<Seq<char>> {
    match q {
        QueryType::ReadOnly => None,
        QueryType::Destructive(s) => Some(s@),
    }
}

fn label_of(k: StatementKind) -> (r: Option<String>)
    ensures
        match r {
            Some(s) => kind_label(k) == Some(s@),
            None => kind_label(k) is None,
        },
{
    proof {
        reveal_strlit("DELETE");
        reveal_strlit("DROP");
        reveal_strlit("TRUNCATE");
        reveal_strlit("UPDATE");
        reveal_strlit("ALTER TABLE");
        reveal_strlit("ALTER");
        reveal_strlit("INSERT");
        reveal_strlit("CREATE");
    }
    match k {
        StatementKind::Delete => Some(String::from_str("DELETE")),
        StatementKind::Drop => Some(String::from_str("DROP")),
        StatementKind::Truncate => Some(String::from_str("TRUNCATE")),
        StatementKind::Update => Some(String::from_str("UPDATE")),
        StatementKind::AlterTable => Some(String::from_str("ALTER TABLE")),
        StatementKind::AlterOther => Some(String::from_str("ALTER")),
        StatementKind::Insert => Some(String::from_str("INSERT")),
        StatementKind::CreateDatabase => Some(String::from_str("CREATE")),
        StatementKind::CreateTable => Some(String::from_str("CREATE")),
        StatementKind::Other => None,
    }
}

fn destructive(label: &str) -> (q: QueryType)
    ensures
        query_type_label(q) == Some(label@),
{
    QueryType::Destructive(crate::text::copy_str(label))
}

/// Analyzes SQL text for destructive or state-changing statements.
pub struct SqlQueryAnalyzer;

impl SqlQueryAnalyzer {
    /// The verdict on parsed statements: the first state-changing one decides.
    pub fn classify_statements(kinds: &Vec<StatementKind>) -> (q: QueryType)
        ensures
            query_type_label(q) == first_destructive(kinds@),
    {
        let mut i: usize = 0;
        assert(kinds@.subrange(0, kinds@.len() as int) =~= kinds@);
        while i < kinds.len()
            invariant
                i <= kinds.len(),
                first_destructive(kinds@) == first_destructive(
                    kinds@.subrange(i as int, kinds@.len() as int),
                ),
            decreases kinds.len() - i,
        {
            proof {
                let rest = kinds@.subrange(i as int, kinds@.len() as int);
                assert(rest.subrange(1, rest.len() as int) =~= kinds@.subrange(
                    i + 1,
                    kinds@.len() as int,
                ));
            }
            match label_of(kinds[i]) {
                Some(l) => {
                    return QueryType::Destructive(l);
                },
                None => {},
            }
            i += 1;
        }
        QueryType::ReadOnly
    }

    /// The verdict from text patterns, for queries the parser rejects;
    /// `upper` is the query in upper case.
    pub fn classify_fallback(upper: &str) -> (q: QueryType)
        ensures
            query_type_label(q) == fallback_label(upper@),
    {
        proof {
            reveal_strlit("DELETE FROM");
            reveal_strlit("DROP TABLE");
            reveal_strlit("DROP DATABASE");
            reveal_strlit("TRUNCATE ");
            reveal_strlit("UPDATE ");
            reveal_strlit(" SET ");
            reveal_strlit("ALTER TABLE");
            reveal_strlit("DELETE/DROP");
            reveal_strlit("TRUNCATE");
            reveal_strlit("UPDATE");
        }
        if contains_str(upper, "DELETE FROM") || contains_str(upper, "DROP TABLE") || contains_str(
            upper,
            "DROP DATABASE",
        ) {
            destructive("DELETE/DROP")
        } else if contains_str(upper, "TRUNCATE ") {
            destructive("TRUNCATE")
        } else if contains_str(upper, "UPDATE ") && contains_str(upper, " SET ") {
            destructive("UPDATE")
        } else if contains_str(upper, "ALTER TABLE") {
            destructive("ALTER TABLE")
        } else {
            QueryType::ReadOnly
        }
    }

    /// Analyzes an SQL string: parsed with sqlparser's PostgreSQL dialect when
    /// possible, otherwise checked for destructive patterns in upper case.
    pub fn analyze(sql: &str) -> (q: QueryType)
        ensures
            query_type_label(q) == analysis(parsed_statement_kinds(sql@), str_uppercase(sql@)),
    {
        match parse_statement_kinds(sql) {
            Some(kinds) => Self::classify_statements(&kinds),
            None => {
                let upper = to_uppercase(sql);
                Self::classify_fallback(upper.as_str())
            },
        }
    }

    /// Whether the verdict is destructive.
    pub fn is_destructive(q: &QueryType) -> (r: bool)
        ensures
            r == (query_type_label(*q) is Some),
    {
        match q {
            QueryType::ReadOnly => false,
            QueryType::Destructive(_) => true,
        }
    }
}

/// Every statement kind except `Other` changes state and is named, so it is
/// confirmed before it runs; only `Other` is read-only.
pub proof fn lemma_only_other_is_read_only(k: StatementKind)
    ensures
        (kind_label(k) is None) <==> k == StatementKind::Other,
        k == StatementKind::CreateDatabase ==> kind_label(k) == Some("CREATE"@),
        k == StatementKind::CreateTable ==> kind_label(k) == Some("CREATE"@),
        k == StatementKind::Drop ==> kind_label(k) == Some("DROP"@),
        k == StatementKind::Delete ==> kind_label(k) == Some("DELETE"@),
{
}

/// The first state-changing statement of a parsed query decides its verdict,
/// whatever follows it.
pub proof fn lemma_first_state_change_decides(ks: Seq<StatementKind>, upper: Seq<char>, i: int)
    requires
        0 <= i < ks.len(),
        ks[i] != StatementKind::Other,
        forall|j: int| 0 <= j < i ==> ks[j] == StatementKind::Other,
    ensures
        analysis(Some(ks), upper) == kind_label(ks[i]),
        analysis(Some(ks), upper) is Some,
    decreases i,
{
    if i > 0 {
        let rest = ks.subrange(1, ks.len() as int);
        assert forall|j: int| 0 <= j < i - 1 implies rest[j] == StatementKind::Other by {
            assert(rest[j] == ks[j + 1]);
        }
        assert(rest[i - 1] == ks[i]);
        lemma_first_state_change_decides(rest, upper, i - 1);
    }
}

/// A parsed query is read-only exactly when none of its statements changes
/// state.
pub proof fn lemma_read_only_iff_no_state_change(ks: Seq<StatementKind>, upper: Seq<char>)
    ensures
        (analysis(Some(ks), upper) is None) <==> (forall|j: int|
            0 <= j < ks.len() ==> ks[j] == StatementKind::Other),
    decreases ks.len(),
{
    if ks.len() > 0 {
        let rest = ks.subrange(1, ks.len() as int);
        lemma_read_only_iff_no_state_change(rest, upper);
        if forall|j: int| 0 <= j < ks.len() ==> ks[j] == StatementKind::Other {
            assert forall|j: int| 0 <= j < rest.len() implies rest[j] == StatementKind::Other by {
                assert(rest[j] == ks[j + 1]);
            }
        } else {
            let j = choose|j: int| 0 <= j < ks.len() && ks[j] != StatementKind::Other;
            if ks[0] == StatementKind::Other {
                assert(rest[j - 1] == ks[j]);
            }
        }
    }
}

/// `CREATE DATABASE`, when no state-changing statement comes before it, makes
/// the query destructive under the name `CREATE`.
pub proof fn lemma_create_database_is_confirmed(ks: Seq<StatementKind>, upper: Seq<char>, i: int)
    requires
        0 <= i < ks.len(),
        ks[i] == StatementKind::CreateDatabase,
        forall|j: int| 0 <= j < i ==> ks[j] == StatementKind::Other,
    ensures
        analysis(Some(ks), upper) == Some("CREATE"@),
{
    lemma_first_state_change_decides(ks, upper, i);
}

/// A written-back statement that begins with the words `CREATE DATABASE` is of
/// that kind.
pub proof fn lemma_create_database_text(t: Seq<char>)
    requires
        split_seq(t, ' ').len() > 1,
        split_seq(t, ' ')[0] == "CREATE"@,
        split_seq(t, ' ')[1] == "DATABASE"@,
    ensures
        kind_of_text(t) == StatementKind::CreateDatabase,
{
    reveal_strlit("CREATE");
    reveal_strlit("DELETE");
    reveal_strlit("DROP");
    reveal_strlit("TRUNCATE");
    reveal_strlit("UPDATE");
    reveal_strlit("INSERT");
    reveal_strlit("ALTER");
    let w0 = split_seq(t, ' ')[0];
    assert(w0[0] != "DELETE"@[0]);
    assert(w0[0] != "DROP"@[0]);
    assert(w0[0] != "TRUNCATE"@[0]);
    assert(w0[0] != "UPDATE"@[0]);
    assert(w0[0] != "INSERT"@[0]);
    assert(w0[0] != "ALTER"@[0]);
}

} // verus!
