//! The error taxonomy of the board and its user-visible classification.

use vstd::prelude::*;
use crate::text::same_text;

verus! {

/// What the catalog store reported when a statement failed, reduced to the
/// facts that decisions are taken on.
pub enum SqlFailure {
    /// The database itself rejected the statement; `constraint` names the
    /// violated constraint where there was one.
    Database { constraint: Option<String>, message: String },
    /// A row was expected and none came back.
    RowNotFound,
    /// Any other failure (connectivity, protocol, decoding).
    Other(String),
}

impl SqlFailure {
    /// The failure is a violation of the constraint called `name`.
    pub open spec fn violates(&self, name: Seq<char>) -> bool {
        self matches SqlFailure::Database { constraint: Some(c), .. } && c@ == name
    }

    /// Tests whether the failure is a violation of the constraint `name`.
    pub fn is_violation_of(&self, name: &str) -> (hit: bool)
        ensures
            hit == self.violates(name@),
    {
        match self {
            SqlFailure::Database { constraint: Some(c), .. } => same_text(c.as_str(), name),
            _ => false,
        }
    }
}

/// Every way a request can fail.
pub enum Error {
    ContentTooLarge(String),
    Conflict(String),
    Unauthorized,
    BadRequest(String),
    UnsupportedMediaType(String),
    NotFound,
    /// A malformed search query.
    Query(String),
    /// A failure of the catalog store.
    Sql(SqlFailure),
    /// Any other infrastructure failure; the text is for the server log only.
    Internal(String),
}

/// The parts of an HTTP reply that an error decides: status code and body.
pub struct Response {
    pub status: u16,
    pub body: String,
}

impl Error {
    /// The HTTP status code that the error is reported with.
    pub open spec fn status_code(&self) -> u16 {
        match self {
            Error::ContentTooLarge(_) => 413,
            Error::Conflict(_) => 409,
            Error::Unauthorized => 401,
            Error::BadRequest(_) => 400,
            Error::UnsupportedMediaType(_) => 415,
            Error::NotFound => 404,
            Error::Query(_) => 400,
            Error::Sql(_) => 500,
            Error::Internal(_) => 500,
        }
    }

    /// The text shown to the client: the reason of a client error, and nothing
    /// for authorization, absence and infrastructure failures.
    pub open spec fn client_text(&self) -> Seq<char> {
        match self {
            Error::ContentTooLarge(s) => s@,
            Error::Conflict(s) => s@,
            Error::BadRequest(s) => s@,
            Error::UnsupportedMediaType(s) => s@,
            Error::Query(s) => s@,
            Error::Unauthorized => Seq::empty(),
            Error::NotFound => Seq::empty(),
            Error::Sql(_) => Seq::empty(),
            Error::Internal(_) => Seq::empty(),
        }
    }

    /// The error stems from the infrastructure rather than from the request.
    pub open spec fn is_infrastructure(&self) -> bool {
        self is Sql || self is Internal
    }

    /// Classifies the error for the client: the status code, and the reason
    /// string where the client may see one.
    pub fn into_response(self) -> (reply: Response)
        ensures
            reply.status == self.status_code(),
            reply.body@ == self.client_text(),
    {
        match self {
            Error::ContentTooLarge(content) => Response { status: 413, body: content },
            Error::Conflict(conflict) => Response { status: 409, body: conflict },
            Error::Unauthorized => Response { status: 401, body: String::new() },
            Error::BadRequest(s) => Response { status: 400, body: s },
            Error::UnsupportedMediaType(ty) => Response { status: 415, body: ty },
            Error::NotFound => Response { status: 404, body: String::new() },
            Error::Query(s) => Response { status: 400, body: s },
            Error::Internal(_) => Response { status: 500, body: String::new() },
            Error::Sql(_) => Response { status: 500, body: String::new() },
        }
    }
}

/// Infrastructure failures reach the client as a bare internal error: status
/// 500 and an empty body, whatever detail the error carries.
pub proof fn infrastructure_detail_stays_inside(e: Error)
    requires
        e.is_infrastructure(),
    ensures
        e.status_code() == 500,
        e.client_text().len() == 0,
{
}

/// Rewrites particular catalog failures of a result into domain errors.
pub trait ResultExt<T>: Sized {
    /// The value seen as a plain result.
    spec fn outcome(&self) -> Result<T, Error>;

    /// Replaces a violation of the constraint `name` by what `f` makes of it;
    /// every other result passes through unchanged.
    fn on_constraint<F: FnOnce(SqlFailure) -> Error>(self, name: &str, f: F) -> (out: Result<T, Error>)
        requires
            forall|d: SqlFailure| self.outcome() == Err::<T, Error>(Error::Sql(d)) && d.violates(name@)
                ==> f.requires((d,)),
        ensures
            match self.outcome() {
                Err(Error::Sql(d)) if d.violates(name@) => out matches Err(e) && f.ensures((d,), e),
                other => out == other,
            },
    ;

    /// Replaces the absence of a row by `e`; every other result passes through
    /// unchanged.
    fn on_no_rows(self, e: Error) -> (out: Result<T, Error>)
        ensures
            match self.outcome() {
                Err(Error::Sql(SqlFailure::RowNotFound)) => out == Err::<T, Error>(e),
                other => out == other,
            },
    ;
}

impl<T> ResultExt<T> for Result<T, Error> {
    open spec fn outcome(&self) -> Result<T, Error> {
        *self
    }

    fn on_constraint<F: FnOnce(SqlFailure) -> Error>(self, name: &str, f: F) -> (out: Result<T, Error>) {
        match self {
            Err(Error::Sql(d)) => {
                if d.is_violation_of(name) {
                    Err(f(d))
                } else {
                    Err(Error::Sql(d))
                }
            },
            other => other,
        }
    }

    fn on_no_rows(self, e: Error) -> (out: Result<T, Error>) {
        match self {
            Err(Error::Sql(SqlFailure::RowNotFound)) => Err(e),
            other => other,
        }
    }
}

} // verus!
