//! The SQL editor panel: its text and the live verdict on it.
use vstd::prelude::*;

use crate::analyzer::{analysis, parsed_statement_kinds, QueryType, SqlQueryAnalyzer};
use crate::text::{concat2, concat3, str_uppercase, trim, trim_seq};

verus! {

/// The editor's text and the verdict shown above it.
#[derive(Debug)]
pub struct SqlEditorState {
    pub text: String,
    pub is_destructive: bool,
    pub query_type: String,
}

/// The verdict on edited text: `Empty` for blank text, `ReadOnly`, or the
/// destructive operation's name.
pub open spec fn editor_verdict(text: Seq<char>) -> (bool, Seq<char>) {
    if trim_seq(text).len() == 0 {
        (false, "Empty"@)
    } else {
        match analysis(parsed_statement_kinds(text), str_uppercase(text)) {
            Some(op) => (true, op),
            None => (false, "ReadOnly"@),
        }
    }
}

impl SqlEditorState {
    /// The editor as it opens: a sample query, read-only.
    pub fn new() -> (r: Self)
        ensures
            r.text@ == "SELECT 1 as id, 'PostgreSQL' as name;"@,
            !r.is_destructive,
            r.query_type@ == "ReadOnly"@,
    {
        proof {
            reveal_strlit("SELECT 1 as id, 'PostgreSQL' as name;");
            reveal_strlit("ReadOnly");
        }
        SqlEditorState {
            text: String::from_str("SELECT 1 as id, 'PostgreSQL' as name;"),
            is_destructive: false,
            query_type: String::from_str("ReadOnly"),
        }
    }

    /// Takes the text after an edit and analyzes it again.
    pub fn update_content(&mut self, text: String)
        ensures
            final(self).text@ == text@,
            (final(self).is_destructive, final(self).query_type@) == editor_verdict(text@),
    {
        proof {
            reveal_strlit("Empty");
            reveal_strlit("ReadOnly");
        }
        let t = trim(text.as_str());
        if t.as_str().is_empty() {
            self.is_destructive = false;
            self.query_type = String::from_str("Empty");
        } else {
            match SqlQueryAnalyzer::analyze(text.as_str()) {
                QueryType::ReadOnly => {
                    self.is_destructive = false;
                    self.query_type = String::from_str("ReadOnly");
                },
                QueryType::Destructive(reason) => {
                    self.is_destructive = true;
                    self.query_type = reason;
                },
            }
        }
        self.text = text;
    }

    /// The badge above the editor.
    pub fn status_text(&self) -> (r: String)
        ensures
            r@ == if self.is_destructive {
                "⚠️ ALERTA: Query Destrutiva ("@ + self.query_type@ + ")!"@
            } else {
                "Status: "@ + self.query_type@
            },
    {
        if self.is_destructive {
            concat3("⚠️ ALERTA: Query Destrutiva (", self.query_type.as_str(), ")!")
        } else {
            concat2("Status: ", self.query_type.as_str())
        }
    }
}

} // verus!
