use vstd::prelude::*;

verus! {

/// HTTP status code for a request that the caller got wrong.
pub const STATUS_BAD_REQUEST: u16 = 400;

/// HTTP status code for a failure on the server's side.
pub const STATUS_INTERNAL_SERVER_ERROR: u16 = 500;

/// Error returned by the control-plane handlers to the HTTP caller.
#[derive(Clone, Debug, PartialEq, Eq)]
pub enum WasApiError {
    BadRequestError(String),
    InternalServerError(String),
}

/// Body of an error response.
#[derive(Clone, Debug, PartialEq, Eq)]
pub struct WasApiErrorResponse {
    pub msg: String,
}

impl WasApiError {
    pub open spec fn spec_status(&self) -> u16 {
        match self {
            WasApiError::BadRequestError(_) => STATUS_BAD_REQUEST,
            WasApiError::InternalServerError(_) => STATUS_INTERNAL_SERVER_ERROR,
        }
    }

    pub open spec fn spec_message(&self) -> Seq<char> {
        match self {
            WasApiError::BadRequestError(m) => m@,
            WasApiError::InternalServerError(m) => m@,
        }
    }

    /// The HTTP status code that this error is answered with.
    pub fn status_code(&self) -> (r: u16)
        ensures
            r == self.spec_status(),
    {
        match self {
            WasApiError::BadRequestError(_) => STATUS_BAD_REQUEST,
            WasApiError::InternalServerError(_) => STATUS_INTERNAL_SERVER_ERROR,
        }
    }

    /// Splits the error into the status code and the body sent to the caller.
    pub fn into_response_parts(self) -> (r: (u16, WasApiErrorResponse))
        ensures
            r.0 == self.spec_status(),
            r.1.msg@ == self.spec_message(),
    {
        let status = self.status_code();
        match self {
            WasApiError::BadRequestError(msg) => (status, WasApiErrorResponse { msg }),
            WasApiError::InternalServerError(msg) => (status, WasApiErrorResponse { msg }),
        }
    }
}

} // verus!
