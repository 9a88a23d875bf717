//! Rendering of query results as text cells and CSV records, and the
//! append-only execution log.
use vstd::prelude::*;

use crate::text::{all_digits, decimal, digits_value, lemma_decimal_digits, append, clone_string, clone_strings, push_char, signed_decimal, signed_decimal_string, string_views};

use crate::numeric::{numeric_text, numeric_to_text};

verus! {

/// One value of a result row, as read from PostgreSQL. Values whose text
/// form is produced by another library (floating point numbers, timestamps,
/// JSON, UUIDs) arrive already rendered.
#[derive(Debug)]
pub enum CellValue {
    /// SQL `NULL` of a type the reader understands.
    Null,
    Text(String),
    Integer(i64),
    Bool(bool),
    Rendered(String),
    Bytes(Vec<u8>),
    /// An array, each element already rendered (`None` for a NULL element).
    List(Vec<Option<String>>),
    /// A `NUMERIC` in PostgreSQL's binary form.
    Numeric(Vec<u8>),
    /// A type the reader does not understand.
    Unsupported,
}

/// An array element's text: `NULL` for a NULL element.
pub open spec fn list_item(o: Option<Seq<char>>) -> Seq<char> {
    match o {
        Some(s) => s,
        None => "NULL"@,
    }
}

/// The elements' texts separated by commas.
pub open spec fn list_body(items: Seq<Option<Seq<char>>>) -> Seq<char>
    decreases items.len(),
{
    if items.len() == 0 {
        Seq::empty()
    } else if items.len() == 1 {
        list_item(items[0])
    } else {
        list_body(items.drop_last()) + ","@ + list_item(items.last())
    }
}

pub open spec fn list_views(v: Seq<Option<String>>) -> Seq<Option<Seq<char>>> {
    v.map_values(|o: Option<String>| crate::text::opt_view(o))
}

/// The text of an array in PostgreSQL's notation: `{a,b,NULL}`.
pub open spec fn list_text(items: Seq<Option<Seq<char>>>) -> Seq<char> {
    "{"@ + list_body(items) + "}"@
}

fn format_list(items: &Vec<Option<String>>) -> (r: String)
    ensures
        r@ == list_text(list_views(items@)),
{
    proof {
        reveal_strlit("{");
        reveal_strlit("}");
        reveal_strlit(",");
        reveal_strlit("NULL");
    }
    let ghost v = list_views(items@);
    let mut s = String::from_str("{");
    let mut i: usize = 0;
    while i < items.len()
        invariant
            i <= items.len(),
            v == list_views(items@),
            s@ == "{"@ + list_body(v.take(i as int)),
        decreases items.len() - i,
    {
        if i > 0 {
            append(&mut s, ",");
        }
        match &items[i] {
            Some(t) => append(&mut s, t.as_str()),
            None => append(&mut s, "NULL"),
        }
        proof {
            assert(v.take(i + 1).drop_last() =~= v.take(i as int));
            assert(v[i as int] == crate::text::opt_view(items@[i as int]));
        }
        i += 1;
    }
    assert(v.take(items@.len() as int) =~= v);
    append(&mut s, "}");
    s
}

/// One result row: the names of its columns and its values.
#[derive(Debug)]
pub struct RowData {
    pub columns: Vec<String>,
    pub cells: Vec<CellValue>,
}

/// A summary of one execution, appended to `execution_log.json`.
#[derive(Debug)]
pub struct ExecutionLogEntry {
    pub timestamp: String,
    pub server_name: String,
    pub database_name: String,
    pub query_source: String,
    pub rows_affected: u64,
    pub duration_ms: u128,
    pub output_file: String,
    pub status: String,
    pub error_message: Option<String>,
}

pub ghost struct LogEntryView {
    pub timestamp: Seq<char>,
    pub server_name: Seq<char>,
    pub database_name: Seq<char>,
    pub query_source: Seq<char>,
    pub rows_affected: u64,
    pub duration_ms: u128,
    pub output_file: Seq<char>,
    pub status: Seq<char>,
    pub error_message: Option<Seq<char>>,
}

impl View for ExecutionLogEntry {
    type V = LogEntryView;

    open spec fn view(&self) -> LogEntryView {
        LogEntryView {
            timestamp: self.timestamp@,
            server_name: self.server_name@,
            database_name: self.database_name@,
            query_source: self.query_source@,
            rows_affected: self.rows_affected,
            duration_ms: self.duration_ms,
            output_file: self.output_file@,
            status: self.status@,
            error_message: crate::text::opt_view(self.error_message),
        }
    }
}

pub open spec fn log_view(v: Seq<ExecutionLogEntry>) -> Seq<LogEntryView> {
    v.map_values(|e: ExecutionLogEntry| e@)
}

impl ExecutionLogEntry {
    /// A copy of the entry.
    pub fn duplicate(&self) -> (r: ExecutionLogEntry)
        ensures
            r@ == self@,
    {
        ExecutionLogEntry {
            timestamp: clone_string(&self.timestamp),
            server_name: clone_string(&self.server_name),
            database_name: clone_string(&self.database_name),
            query_source: clone_string(&self.query_source),
            rows_affected: self.rows_affected,
            duration_ms: self.duration_ms,
            output_file: clone_string(&self.output_file),
            status: clone_string(&self.status),
            error_message: crate::text::clone_opt_string(&self.error_message),
        }
    }
}

/// The lowercase hexadecimal digit for `d < 16`.
pub open spec fn hex_digit(d: nat) -> char {
    if d < 10 {
        ((d + 48) as u32) as char
    } else {
        ((d - 10 + 97) as u32) as char
    }
}

/// Two lowercase hexadecimal digits per byte, most significant first.
pub open spec fn hex_spec(b: Seq<u8>) -> Seq<char>
    decreases b.len(),
{
    if b.len() == 0 {
        Seq::empty()
    } else {
        hex_spec(b.subrange(0, b.len() - 1)) + seq![
            hex_digit(b[b.len() - 1] as nat / 16),
            hex_digit(b[b.len() - 1] as nat % 16),
        ]
    }
}

fn hex_char(d: u8) -> (c: char)
    requires
        d < 16,
    ensures
        c == hex_digit(d as nat),
{
    if d < 10 {
        (d + 48) as char
    } else {
        (d - 10 + 97) as char
    }
}

/// Lowercase hexadecimal text of a byte string (`{:02x}` for each byte).
pub fn encode(bytes: &Vec<u8>) -> (r: String)
    ensures
        r@ == hex_spec(bytes@),
{
    let mut s = String::new();
    let mut i: usize = 0;
    while i < bytes.len()
        invariant
            i <= bytes.len(),
            s@ == hex_spec(bytes@.take(i as int)),
        decreases bytes.len() - i,
    {
        let b = bytes[i];
        push_char(&mut s, hex_char(b / 16));
        push_char(&mut s, hex_char(b % 16));
        assert(bytes@.take(i + 1).subrange(0, i as int) =~= bytes@.take(i as int));
        i += 1;
        assert(s@ =~= hex_spec(bytes@.take(i as int)));
    }
    assert(bytes@.take(bytes@.len() as int) =~= bytes@);
    s
}

/// The text of a cell, with `null_text` standing for `NULL` and
/// `unsupported_text` for values of unknown type.
pub open spec fn cell_text(c: CellValue, null_text: Seq<char>, unsupported_text: Seq<char>) -> Seq<
    char,
> {
    match c {
        CellValue::Null => null_text,
        CellValue::Text(s) => s@,
        CellValue::Integer(i) => signed_decimal(i as int),
        CellValue::Bool(b) => if b {
            "true"@
        } else {
            "false"@
        },
        CellValue::Rendered(s) => s@,
        CellValue::Bytes(b) => "\\x"@ + hex_spec(b@),
        CellValue::List(items) => list_text(list_views(items@)),
        CellValue::Numeric(b) => match numeric_text(b@) {
            Some(t) => t,
            None => unsupported_text,
        },
        CellValue::Unsupported => unsupported_text,
    }
}

/// The CSV text of a cell: empty for `NULL`, `<unsupported_type>` for
/// unknown types.
pub open spec fn csv_cell_text(c: CellValue) -> Seq<char> {
    cell_text(c, Seq::empty(), "<unsupported_type>"@)
}

/// The cell at `idx` of a row, or `Unsupported` past its end.
pub open spec fn cell_at(cells: Seq<CellValue>, idx: int) -> CellValue {
    if 0 <= idx < cells.len() {
        cells[idx]
    } else {
        CellValue::Unsupported
    }
}

/// The CSV record of one row: one field per header column.
pub open spec fn csv_record(row: RowData, width: nat) -> Seq<Seq<char>> {
    Seq::new(width, |i: int| csv_cell_text(cell_at(row.cells@, i)))
}

/// The CSV records for a result: the first row's column names, then one
/// record per row; nothing at all for an empty result.
pub open spec fn csv_records_spec(rows: Seq<RowData>) -> Seq<Seq<Seq<char>>> {
    if rows.len() == 0 {
        Seq::empty()
    } else {
        let width = rows[0].columns@.len();
        seq![string_views(rows[0].columns@)] + Seq::new(
            rows.len(),
            |r: int| csv_record(rows[r], width),
        )
    }
}

pub open spec fn records_view(v: Seq<Vec<String>>) -> Seq<Seq<Seq<char>>> {
    v.map_values(|r: Vec<String>| string_views(r@))
}

/// The text of a cell.
pub fn format_cell(cell: &CellValue, null_text: &str, unsupported_text: &str) -> (r: String)
    ensures
        r@ == cell_text(*cell, null_text@, unsupported_text@),
{
    proof {
        reveal_strlit("true");
        reveal_strlit("false");
        reveal_strlit("\\x");
    }
    match cell {
        CellValue::Null => crate::text::copy_str(null_text),
        CellValue::Text(s) => clone_string(s),
        CellValue::Integer(i) => signed_decimal_string(*i),
        CellValue::Bool(b) => if *b {
            String::from_str("true")
        } else {
            String::from_str("false")
        },
        CellValue::Rendered(s) => clone_string(s),
        CellValue::Bytes(b) => {
            let mut s = String::from_str("\\x");
            let hex = encode(b);
            append(&mut s, hex.as_str());
            s
        },
        CellValue::List(items) => format_list(items),
        CellValue::Numeric(b) => match numeric_to_text(b) {
            Some(t) => t,
            None => crate::text::copy_str(unsupported_text),
        },
        CellValue::Unsupported => crate::text::copy_str(unsupported_text),
    }
}

/// Writes query results as CSV records and keeps the execution log.
pub struct CsvExporter;

impl CsvExporter {
    /// The CSV text of a cell.
    pub fn csv_cell(cell: &CellValue) -> (r: String)
        ensures
            r@ == csv_cell_text(*cell),
    {
        proof {
            reveal_strlit("<unsupported_type>");
            reveal_strlit("");
        }
        format_cell(cell, "", "<unsupported_type>")
    }

    /// The record of one row: `width` fields, read by position.
    pub fn record(row: &RowData, width: usize) -> (r: Vec<String>)
        ensures
            string_views(r@) == csv_record(*row, width as nat),
    {
        let mut out: Vec<String> = Vec::new();
        let mut i: usize = 0;
        while i < width
            invariant
                i <= width,
                string_views(out@) == csv_record(*row, width as nat).take(i as int),
            decreases width - i,
        {
            let text = if i < row.cells.len() {
                Self::csv_cell(&row.cells[i])
            } else {
                Self::csv_cell(&CellValue::Unsupported)
            };
            let ghost old_out = out@;
            out.push(text);
            assert(string_views(out@) =~= string_views(old_out).push(text@));
            i += 1;
            assert(string_views(out@) =~= csv_record(*row, width as nat).take(i as int));
        }
        assert(csv_record(*row, width as nat).take(width as int) =~= csv_record(
            *row,
            width as nat,
        ));
        out
    }

    /// The records to write for a result: the header, then one record per row.
    pub fn records(rows: &Vec<RowData>) -> (r: Vec<Vec<String>>)
        ensures
            records_view(r@) == csv_records_spec(rows@),
    {
        let mut out: Vec<Vec<String>> = Vec::new();
        if rows.len() == 0 {
            assert(records_view(out@) =~= csv_records_spec(rows@));
            return out;
        }
        let width = rows[0].columns.len();
        out.push(clone_strings(&rows[0].columns));
        let ghost body = Seq::new(rows@.len(), |r: int| csv_record(rows@[r], width as nat));
        let mut i: usize = 0;
        assert(records_view(out@) =~= seq![string_views(rows@[0].columns@)] + body.take(0));
        while i < rows.len()
            invariant
                i <= rows.len(),
                rows@.len() > 0,
                width == rows@[0].columns@.len(),
                body == Seq::new(rows@.len(), |r: int| csv_record(rows@[r], width as nat)),
                records_view(out@) == seq![string_views(rows@[0].columns@)] + body.take(i as int),
            decreases rows.len() - i,
        {
            let rec = Self::record(&rows[i], width);
            let ghost old_out = out@;
            out.push(rec);
            assert(records_view(out@) =~= records_view(old_out).push(body[i as int]));
            i += 1;
            assert(records_view(out@) =~= seq![string_views(rows@[0].columns@)] + body.take(
                i as int,
            ));
        }
        assert(body.take(rows@.len() as int) =~= body);
        out
    }

    /// The log after one more run: the entries read before (none when the
    /// file was missing or unreadable), then the new one.
    pub fn append_log(previous: Option<Vec<ExecutionLogEntry>>, entry: &ExecutionLogEntry) -> (r:
        Vec<ExecutionLogEntry>)
        ensures
            log_view(r@) == match previous {
                Some(v) => log_view(v@),
                None => Seq::<LogEntryView>::empty(),
            }.push(entry@),
    {
        let mut entries = match previous {
            Some(v) => v,
            None => Vec::new(),
        };
        let ghost before = entries@;
        entries.push(entry.duplicate());
        assert(log_view(entries@) =~= log_view(before).push(entry@));
        entries
    }
}

/// An integer cell reads as its decimal numeral, whatever text stands for
/// NULL: never empty, never the NULL text unless that text is the numeral,
/// digits only (after a `-` for a negative value) and worth the integer.
pub proof fn lemma_integer_cell_text(i: i64, null_text: Seq<char>, other_null: Seq<char>, unsupported: Seq<char>)
    ensures
        cell_text(CellValue::Integer(i), null_text, unsupported) == cell_text(
            CellValue::Integer(i),
            other_null,
            unsupported,
        ),
        cell_text(CellValue::Integer(i), null_text, unsupported).len() > 0,
        i >= 0 ==> all_digits(cell_text(CellValue::Integer(i), null_text, unsupported))
            && digits_value(cell_text(CellValue::Integer(i), null_text, unsupported)) == i,
        i < 0 ==> cell_text(CellValue::Integer(i), null_text, unsupported)[0] == '-' && all_digits(
            cell_text(CellValue::Integer(i), null_text, unsupported).drop_first(),
        ) && digits_value(cell_text(CellValue::Integer(i), null_text, unsupported).drop_first())
            == -i,
        csv_cell_text(CellValue::Integer(i)).len() > 0,
{
    if i >= 0 {
        lemma_decimal_digits(i as nat);
    } else {
        lemma_decimal_digits((-i) as nat);
        let t = cell_text(CellValue::Integer(i), null_text, unsupported);
        assert(t.drop_first() =~= decimal((-i) as nat));
    }
}

/// Only SQL NULL is written with the NULL text: every other cell's text is the
/// same whatever that text is, a text value is written as it is, and booleans
/// read `true` and `false`.
pub proof fn lemma_only_null_uses_null_text(c: CellValue, n1: Seq<char>, n2: Seq<char>, u: Seq<char>)
    ensures
        !(c is Null) ==> cell_text(c, n1, u) == cell_text(c, n2, u),
        c is Null ==> cell_text(c, n1, u) == n1,
        c matches CellValue::Text(s) ==> cell_text(c, n1, u) == s@,
        c matches CellValue::Bool(b) ==> cell_text(c, n1, u) == (if b {
            "true"@
        } else {
            "false"@
        }),
{
}

} // verus!
