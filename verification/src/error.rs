use vstd::prelude::*;

verus! {

/// Core error type of the toolkit; each variant carries its message.
#[derive(Debug, Clone)]
pub enum MustelError {
    Config(String),
    Database(String),
    Security(String),
    Query(String),
    Io(String),
    Json(String),
    SqlParse(String),
    UserCancelled,
    Other(String),
}

/// The mathematical content of a `MustelError`: its kind and its message.
pub ghost enum ErrorView {
    Config(Seq<char>),
    Database(Seq<char>),
    Security(Seq<char>),
    Query(Seq<char>),
    Io(Seq<char>),
    Json(Seq<char>),
    SqlParse(Seq<char>),
    UserCancelled,
    Other(Seq<char>),
}

impl View for MustelError {
    type V = ErrorView;

    open spec fn view(&self) -> ErrorView {
        match self {
            MustelError::Config(m) => ErrorView::Config(m@),
            MustelError::Database(m) => ErrorView::Database(m@),
            MustelError::Security(m) => ErrorView::Security(m@),
            MustelError::Query(m) => ErrorView::Query(m@),
            MustelError::Io(m) => ErrorView::Io(m@),
            MustelError::Json(m) => ErrorView::Json(m@),
            MustelError::SqlParse(m) => ErrorView::SqlParse(m@),
            MustelError::UserCancelled => ErrorView::UserCancelled,
            MustelError::Other(m) => ErrorView::Other(m@),
        }
    }
}

/// The mathematical content of a `Result<(), MustelError>`.
pub open spec fn unit_result_view(r: Result<(), MustelError>) -> Result<(), ErrorView> {
    match r {
        Ok(()) => Ok(()),
        Err(e) => Err(e@),
    }
}

} // verus!
