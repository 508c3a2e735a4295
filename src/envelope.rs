//! The outcome of every operation: a payload, or one error with its status.
use vstd::prelude::*;

verus! {

/// Why an operation did not produce its payload.
#[derive(Debug)]
pub enum ServiceError {
    /// The named cluster, bucket or document does not exist.
    NotFound(String),
    /// The request was malformed and was refused before reaching the engine.
    Validation(String),
    /// The engine could not be reached.
    BackendUnavailable(String),
    /// The engine was reached and refused the operation.
    BackendError(String),
}

/// Whether an error status is the client's fault.
pub open spec fn is_client_error(code: u16) -> bool {
    400 <= code < 500
}

/// Whether an error status is the service's fault.
pub open spec fn is_server_error(code: u16) -> bool {
    500 <= code < 600
}

pub open spec fn status_of(e: ServiceError) -> u16 {
    match e {
        ServiceError::NotFound(_) => 400,
        ServiceError::Validation(_) => 400,
        ServiceError::BackendUnavailable(_) => 503,
        ServiceError::BackendError(_) => 500,
    }
}

pub open spec fn message_of(e: ServiceError) -> Seq<char> {
    match e {
        ServiceError::NotFound(m) => m@,
        ServiceError::Validation(m) => m@,
        ServiceError::BackendUnavailable(m) => m@,
        ServiceError::BackendError(m) => m@,
    }
}

impl ServiceError {
    pub fn status_code(&self) -> (r: u16)
        ensures
            r == status_of(*self),
    {
        match self {
            ServiceError::NotFound(_) => 400,
            ServiceError::Validation(_) => 400,
            ServiceError::BackendUnavailable(_) => 503,
            ServiceError::BackendError(_) => 500,
        }
    }

    /// The error as it is rendered to a client: its status and its message.
    pub fn to_response(&self) -> (r: ErrorResponse)
        ensures
            r.code == status_of(*self),
            r.message@ == message_of(*self),
    {
        let message = match self {
            ServiceError::NotFound(m) => m.clone(),
            ServiceError::Validation(m) => m.clone(),
            ServiceError::BackendUnavailable(m) => m.clone(),
            ServiceError::BackendError(m) => m.clone(),
        };
        ErrorResponse { code: self.status_code(), message }
    }
}

/// A request's errors are told apart from the system's: not-found and malformed
/// requests are client errors, unreachable or refusing engines are server errors.
pub proof fn lemma_error_classes(e: ServiceError)
    ensures
        (e is NotFound || e is Validation) <==> is_client_error(status_of(e)),
        (e is BackendUnavailable || e is BackendError) <==> is_server_error(status_of(e)),
{
}

/// The body of a failed response.
#[derive(Debug)]
pub struct ErrorResponse {
    pub code: u16,
    pub message: String,
}

/// The body of an acknowledged write.
#[derive(Debug)]
pub struct SuccessfulResponse {
    pub code: u16,
    pub message: String,
}

impl SuccessfulResponse {
    pub fn ok_response(msg: &str) -> (r: SuccessfulResponse)
        ensures
            r.code == 200,
            r.message@ == msg@,
    {
        SuccessfulResponse { code: 200, message: msg.to_owned() }
    }
}

/// The outcome of every backend operation: its payload or one error.
pub type WebResponse<T> = Result<T, ServiceError>;

} // verus!
