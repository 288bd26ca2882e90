//! Errors of the HTTP endpoints: a message together with the status code the
//! response carries.

use vstd::prelude::*;
use vstd::string::*;

use crate::http::INTERNAL_SERVER_ERROR;
use crate::text::{nat_decimal, u64_decimal};

verus! {

broadcast use vstd::seq::group_seq_axioms;

/// An error that carries a report and the status code of the response it
/// becomes.
#[derive(Debug)]
pub struct ApiError {
    pub report: String,
    pub status_code: u16,
}

impl ApiError {
    /// An error with the message `reason` and the status `status_code`.
    pub fn new(reason: &str, status_code: u16) -> (e: ApiError)
        ensures
            e.report@ == reason@,
            e.status_code == status_code,
    {
        ApiError { report: reason.to_owned(), status_code }
    }

    /// An error raised from another error's report; it answers with
    /// 500 Internal Server Error.
    pub fn from_report(report: String) -> (e: ApiError)
        ensures
            e.report == report,
            e.status_code == INTERNAL_SERVER_ERROR,
    {
        ApiError { report, status_code: INTERNAL_SERVER_ERROR }
    }

    /// The text of the error, `[code] report`.
    pub open spec fn text(self) -> Seq<char> {
        "["@ + nat_decimal(self.status_code as nat) + "] "@ + self.report@
    }

    /// The text of the error, as its `Display` writes it.
    pub fn to_string(&self) -> (s: String)
        ensures
            s@ == self.text(),
    {
        let mut s = String::new();
        s.append("[");
        s.append(u64_decimal(self.status_code as u64).as_str());
        s.append("] ");
        s.append(self.report.as_str());
        assert(s@ =~= self.text());
        s
    }

    /// The status code of the response.
    pub fn status_code(&self) -> (c: u16)
        ensures
            c == self.status_code,
    {
        self.status_code
    }

    /// The response the error becomes: its status code, and the report as
    /// the body.
    pub fn error_response(&self) -> (r: (u16, String))
        ensures
            r.0 == self.status_code,
            r.1@ == self.report@,
    {
        (self.status_code, self.report.clone())
    }
}

/// Attaching a status code to the error of a result.
pub trait WithStatusCode<T>: Sized {
    /// The result with its error, if any, turned into an [`ApiError`] that
    /// answers with `code`.
    fn with_status(self, code: u16) -> Result<T, ApiError>;
}

impl<T> WithStatusCode<T> for Result<T, String> {
    fn with_status(self, code: u16) -> (out: Result<T, ApiError>)
        ensures
            self is Ok ==> out == Ok::<T, ApiError>(self->Ok_0),
            self matches Err(e) ==> (out matches Err(a) && a.report == e && a.status_code == code),
    {
        match self {
            Ok(v) => Ok(v),
            Err(e) => Err(ApiError { report: e, status_code: code }),
        }
    }
}

} // verus!
