//! The closed set of errors that leaves the model layer.

use sqlx::Error as DriverError;
use vstd::prelude::*;

verus! {

/// `sqlx::Error`, the driver's own error. Opaque here: it is shown as text
/// and never looked into.
#[verifier::external_type_specification]
#[verifier::external_body]
pub struct ExDriverError(DriverError);

/// What a caller above the model layer can be told of a failure.
#[derive(Clone, Debug, PartialEq)]
pub enum Error {
    /// A lookup or a delete by key met no row.
    EntityNotFound { entity: &'static str, id: i64 },
    /// Any other failure of the store; the detail is for the server's log.
    Store(String),
    /// The pool could not be set up when the process started.
    PoolInit(String),
}

/// An [`Error`] with its texts as sequences of characters.
pub enum ErrorView {
    EntityNotFound { entity: Seq<char>, id: i64 },
    Store(Seq<char>),
    PoolInit(Seq<char>),
}

impl View for Error {
    type V = ErrorView;

    open spec fn view(&self) -> ErrorView {
        match self {
            Error::EntityNotFound { entity, id } => ErrorView::EntityNotFound {
                entity: entity@,
                id: *id,
            },
            Error::Store(detail) => ErrorView::Store(detail@),
            Error::PoolInit(detail) => ErrorView::PoolInit(detail@),
        }
    }
}

/// Whether `out` is the exec form of `model`: a value with that view, or an
/// error with that view.
pub open spec fn shows<T: View>(out: Result<T, Error>, model: Result<T::V, ErrorView>) -> bool {
    match model {
        Ok(v) => out is Ok && out->Ok_0@ == v,
        Err(e) => out is Err && out->Err_0@ == e,
    }
}

/// Whether `detail` is the text that the driver's error shows of itself.
pub open spec fn tells(detail: String, e: &DriverError) -> bool {
    vstd::string::to_string_from_display_ensures::<DriverError>(e, detail)
}

/// Whether `out` is the failure of a statement on which the driver gave up
/// with `e`: a `Store` error with the driver's own text.
pub open spec fn store_failure<T>(out: Result<T, Error>, e: DriverError) -> bool {
    out matches Err(Error::Store(detail)) && tells(detail, &e)
}

impl Error {
    /// The failure of a statement: `Store`, with the driver's own text as the
    /// detail.
    pub fn from_driver(e: &DriverError) -> (err: Error)
        ensures
            err matches Error::Store(detail) && tells(detail, e),
    {
        Error::Store(e.to_string())
    }

    /// The failure to set up the pool: `PoolInit`, with the driver's own text
    /// as the detail.
    pub fn from_pool(e: &DriverError) -> (err: Error)
        ensures
            err matches Error::PoolInit(detail) && tells(detail, e),
    {
        Error::PoolInit(e.to_string())
    }

    /// Whether the failure is a missing entity, which a caller may answer
    /// with "not found"; the other kinds are answered without their detail.
    pub fn is_not_found(&self) -> (b: bool)
        ensures
            b == (self is EntityNotFound),
    {
        match self {
            Error::EntityNotFound { .. } => true,
            _ => false,
        }
    }
}

} // verus!
