//! The result grid of the desktop interface: its data and its captions.
use vstd::prelude::*;

use crate::exporter::{cell_at, cell_text, format_cell, CellValue, RowData};
use crate::text::{append, clone_strings, concat2, decimal, decimal_string, string_views};

verus! {

/// The rows of a finished query, rendered as text.
#[derive(Debug)]
pub struct QueryResultData {
    pub columns: Vec<String>,
    pub rows: Vec<Vec<String>>,
    pub execution_time_ms: u128,
    /// The number of rows the server returned (the status row of an empty
    /// result is not one of them).
    pub returned_rows: usize,
}

pub ghost struct ResultView {
    pub columns: Seq<Seq<char>>,
    pub rows: Seq<Seq<Seq<char>>>,
    pub execution_time_ms: u128,
    pub returned_rows: usize,
}

pub open spec fn rows_view(v: Seq<Vec<String>>) -> Seq<Seq<Seq<char>>> {
    v.map_values(|r: Vec<String>| string_views(r@))
}

impl View for QueryResultData {
    type V = ResultView;

    open spec fn view(&self) -> ResultView {
        ResultView {
            columns: string_views(self.columns@),
            rows: rows_view(self.rows@),
            execution_time_ms: self.execution_time_ms,
            returned_rows: self.returned_rows,
        }
    }
}

/// The grid text of a cell: `NULL` for SQL NULL alone; a value of a type
/// that was not read shows as `<unsupported_type>`.
pub open spec fn grid_cell_text(c: CellValue) -> Seq<char> {
    cell_text(c, "NULL"@, "<unsupported_type>"@)
}

/// The grid row of a result row: one cell per column of that row.
pub open spec fn grid_row(row: RowData) -> Seq<Seq<char>> {
    Seq::new(row.columns@.len(), |i: int| grid_cell_text(cell_at(row.cells@, i)))
}

pub open spec fn empty_result_message() -> Seq<char> {
    "Query executada com sucesso (0 linhas retornadas)"@
}

/// The grid for a result: a one-cell status table when no row came back,
/// otherwise the first row's column names and every row's cells.
pub open spec fn grid_spec(rows: Seq<RowData>, execution_time_ms: u128) -> ResultView {
    if rows.len() == 0 {
        ResultView {
            columns: seq!["status"@],
            rows: seq![seq![empty_result_message()]],
            execution_time_ms,
            returned_rows: 0,
        }
    } else {
        ResultView {
            columns: string_views(rows[0].columns@),
            rows: Seq::new(rows.len(), |r: int| grid_row(rows[r])),
            execution_time_ms,
            returned_rows: rows.len() as usize,
        }
    }
}

impl QueryResultData {
    /// The placeholder shown before any query ran.
    pub fn placeholder() -> (r: Self)
        ensures
            r@ == (ResultView {
                columns: seq!["id"@, "name"@, "status"@],
                rows: seq![seq!["1"@, "PostgreSQL Local"@, "Pronto para executar"@]],
                execution_time_ms: 0,
                returned_rows: 1,
            }),
    {
        proof {
            reveal_strlit("id");
            reveal_strlit("name");
            reveal_strlit("status");
            reveal_strlit("1");
            reveal_strlit("PostgreSQL Local");
            reveal_strlit("Pronto para executar");
        }
        let mut columns: Vec<String> = Vec::new();
        columns.push(String::from_str("id"));
        columns.push(String::from_str("name"));
        columns.push(String::from_str("status"));
        let mut row: Vec<String> = Vec::new();
        row.push(String::from_str("1"));
        row.push(String::from_str("PostgreSQL Local"));
        row.push(String::from_str("Pronto para executar"));
        let mut rows: Vec<Vec<String>> = Vec::new();
        rows.push(row);
        let r = QueryResultData { columns, rows, execution_time_ms: 0, returned_rows: 1 };
        assert(r@.columns =~= seq!["id"@, "name"@, "status"@]);
        assert(r@.rows[0] =~= seq!["1"@, "PostgreSQL Local"@, "Pronto para executar"@]);
        assert(r@.rows =~= seq![seq!["1"@, "PostgreSQL Local"@, "Pronto para executar"@]]);
        r
    }

    fn grid_row_of(row: &RowData) -> (r: Vec<String>)
        ensures
            string_views(r@) == grid_row(*row),
    {
        let width = row.columns.len();
        let mut out: Vec<String> = Vec::new();
        let mut i: usize = 0;
        while i < width
            invariant
                i <= width,
                width == row.columns@.len(),
                string_views(out@) == grid_row(*row).take(i as int),
            decreases width - i,
        {
            let text = if i < row.cells.len() {
                format_cell(&row.cells[i], "NULL", "<unsupported_type>")
            } else {
                format_cell(&CellValue::Unsupported, "NULL", "<unsupported_type>")
            };
            let ghost before = out@;
            out.push(text);
            assert(string_views(out@) =~= string_views(before).push(text@));
            i += 1;
            assert(string_views(out@) =~= grid_row(*row).take(i as int));
        }
        assert(grid_row(*row).take(width as int) =~= grid_row(*row));
        out
    }

    /// The grid for the rows of a finished query.
    pub fn from_rows(rows: &Vec<RowData>, execution_time_ms: u128) -> (r: Self)
        ensures
            r@ == grid_spec(rows@, execution_time_ms),
            r.returned_rows == rows@.len(),
            rows@.len() > 0 ==> r.rows@.len() == rows@.len(),
            r.execution_time_ms == execution_time_ms,
    {
        if rows.len() == 0 {
            proof {
                reveal_strlit("status");
                reveal_strlit("Query executada com sucesso (0 linhas retornadas)");
            }
            let mut columns: Vec<String> = Vec::new();
            columns.push(String::from_str("status"));
            let mut row: Vec<String> = Vec::new();
            row.push(String::from_str("Query executada com sucesso (0 linhas retornadas)"));
            let mut data_rows: Vec<Vec<String>> = Vec::new();
            data_rows.push(row);
            let r = QueryResultData { columns, rows: data_rows, execution_time_ms, returned_rows: 0 };
            assert(r@.columns =~= seq!["status"@]);
            assert(r@.rows[0] =~= seq![empty_result_message()]);
            assert(r@.rows =~= seq![seq![empty_result_message()]]);
            return r;
        }
        let columns = clone_strings(&rows[0].columns);
        let ghost body = Seq::new(rows@.len(), |r: int| grid_row(rows@[r]));
        let mut data_rows: Vec<Vec<String>> = Vec::new();
        let mut i: usize = 0;
        while i < rows.len()
            invariant
                i <= rows.len(),
                body == Seq::new(rows@.len(), |r: int| grid_row(rows@[r])),
                rows_view(data_rows@) == body.take(i as int),
            decreases rows.len() - i,
        {
            let g = Self::grid_row_of(&rows[i]);
            let ghost before = data_rows@;
            data_rows.push(g);
            assert(rows_view(data_rows@) =~= rows_view(before).push(body[i as int]));
            i += 1;
            assert(rows_view(data_rows@) =~= body.take(i as int));
        }
        assert(body.take(rows@.len() as int) =~= body);
        QueryResultData { columns, rows: data_rows, execution_time_ms, returned_rows: rows.len() }
    }

    /// A copy of the data.
    pub fn duplicate(&self) -> (r: Self)
        ensures
            r@ == self@,
    {
        let mut rows: Vec<Vec<String>> = Vec::new();
        let mut i: usize = 0;
        while i < self.rows.len()
            invariant
                i <= self.rows.len(),
                rows_view(rows@) == rows_view(self.rows@).take(i as int),
            decreases self.rows.len() - i,
        {
            let row = clone_strings(&self.rows[i]);
            let ghost before = rows@;
            rows.push(row);
            assert(rows_view(rows@) =~= rows_view(before).push(string_views(self.rows@[i as int]@)));
            i += 1;
            assert(rows_view(rows@) =~= rows_view(self.rows@).take(i as int));
        }
        assert(rows_view(self.rows@).take(self.rows@.len() as int) =~= rows_view(self.rows@));
        QueryResultData {
            columns: clone_strings(&self.columns),
            rows,
            execution_time_ms: self.execution_time_ms,
            returned_rows: self.returned_rows,
        }
    }
}

/// The result panel: the last data, whether a query runs, the last error.
#[derive(Debug)]
pub struct QueryResultTable {
    pub data: Option<QueryResultData>,
    pub is_loading: bool,
    pub error_message: Option<String>,
}

pub open spec fn results_title_spec(
    is_loading: bool,
    data: Option<ResultView>,
) -> Seq<char> {
    if is_loading {
        "Resultados (Executando no PostgreSQL...)"@
    } else {
        match data {
            Some(d) => "Resultados ("@ + decimal(d.returned_rows as nat) + " linhas, "@ + decimal(
                d.execution_time_ms as nat,
            ) + " ms)"@,
            None => "Resultados"@,
        }
    }
}

pub open spec fn opt_result_view(d: Option<QueryResultData>) -> Option<ResultView> {
    match d {
        Some(x) => Some(x@),
        None => None,
    }
}

impl QueryResultTable {
    /// The panel before any query: the placeholder data, idle, no error.
    pub fn new() -> (r: Self)
        ensures
            r.data matches Some(d) && d@ == (ResultView {
                columns: seq!["id"@, "name"@, "status"@],
                rows: seq![seq!["1"@, "PostgreSQL Local"@, "Pronto para executar"@]],
                execution_time_ms: 0,
                returned_rows: 1,
            }),
            !r.is_loading,
            r.error_message is None,
    {
        QueryResultTable {
            data: Some(QueryResultData::placeholder()),
            is_loading: false,
            error_message: None,
        }
    }

    /// The panel's caption: running, or the row count and time of the data.
    pub fn title_text(&self) -> (r: String)
        ensures
            r@ == results_title_spec(self.is_loading, opt_result_view(self.data)),
    {
        proof {
            reveal_strlit("Resultados (Executando no PostgreSQL...)");
            reveal_strlit("Resultados (");
            reveal_strlit(" linhas, ");
            reveal_strlit(" ms)");
            reveal_strlit("Resultados");
        }
        if self.is_loading {
            String::from_str("Resultados (Executando no PostgreSQL...)")
        } else {
            match &self.data {
                Some(d) => {
                    let mut s = String::from_str("Resultados (");
                    let n = decimal_string(d.returned_rows as u128);
                    append(&mut s, n.as_str());
                    append(&mut s, " linhas, ");
                    let t = decimal_string(d.execution_time_ms);
                    append(&mut s, t.as_str());
                    append(&mut s, " ms)");
                    s
                },
                None => String::from_str("Resultados"),
            }
        }
    }

    /// The error line shown instead of the grid, if an error is kept.
    pub fn error_text(&self) -> (r: Option<String>)
        ensures
            match self.error_message {
                Some(e) => r matches Some(t) && t@ == "❌ Erro no PostgreSQL: "@ + e@,
                None => r is None,
            },
    {
        match &self.error_message {
            Some(e) => Some(concat2("❌ Erro no PostgreSQL: ", e.as_str())),
            None => None,
        }
    }
}

/// The grid of a finished query counts exactly the rows the server returned
/// (zero for an empty result, whose grid shows one status line), shows one
/// grid line per returned row, and its caption reports that count and the
/// time. (A list of rows held in memory has at most `usize::MAX` of them.)
pub proof fn lemma_grid_counts_returned_rows(rows: Seq<RowData>, t: u128)
    requires
        rows.len() <= usize::MAX,
    ensures
        grid_spec(rows, t).returned_rows == rows.len(),
        rows.len() > 0 ==> grid_spec(rows, t).rows.len() == rows.len(),
        rows.len() == 0 ==> grid_spec(rows, t).rows.len() == 1,
        results_title_spec(false, Some(grid_spec(rows, t))) == "Resultados ("@ + decimal(rows.len())
            + " linhas, "@ + decimal(t as nat) + " ms)"@,
{
}

} // verus!
