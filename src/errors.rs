use vstd::prelude::*;

verus! {

/// Failures surfaced to API callers.
///
/// `Login` carries the HTTP status to answer with; every other kind is
/// reported as an internal server error.
#[derive(Debug)]
pub enum ServerError {
    HealthCheck { errors: Vec<String> },
    GetObject { message: String },
    ListObjects { message: String },
    Login { code: u16, message: String },
}

pub const INTERNAL_SERVER_ERROR: u16 = 500;

pub const UNAUTHORIZED: u16 = 401;

impl ServerError {
    /// A `Login` code is a valid HTTP status (three digits).
    pub open spec fn wf(&self) -> bool {
        self matches ServerError::Login { code, .. } ==> 100 <= *code <= 999
    }

    pub open spec fn spec_status_code(&self) -> u16 {
        match self {
            ServerError::Login { code, .. } => *code,
            _ => INTERNAL_SERVER_ERROR,
        }
    }

    /// The HTTP status this error is answered with.
    pub fn status_code(&self) -> (r: u16)
        ensures
            r == self.spec_status_code(),
    {
        match self {
            ServerError::Login { code, .. } => *code,
            _ => INTERNAL_SERVER_ERROR,
        }
    }
}

} // verus!
