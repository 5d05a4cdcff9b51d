//! What a handler answers once the backend has answered.

use vstd::prelude::*;

verus! {

/// Status of a read that succeeded.
pub const STATUS_OK: u16 = 200;

/// Status of a mutation that was registered.
pub const STATUS_ACCEPTED: u16 = 202;

/// The kinds of failure that a handler surfaces.
#[derive(Clone, Copy, Debug, PartialEq, Eq, Structural)]
pub enum ErrorKind {
    /// Unknown index or document.
    NotFound,
    /// Unknown query field or malformed body.
    BadRequest,
    /// The backend could not register or serve the request.
    BackendFailure,
}

/// A failure with the backend's message, passed through as it came.
#[derive(Debug)]
pub struct ResponseError {
    pub kind: ErrorKind,
    pub message: String,
}

/// The body of a successful response.
#[derive(Debug)]
pub enum ResponseBody {
    /// The identifier under which a mutation was registered.
    UpdateId(u64),
    /// One document, as JSON text.
    Document(String),
    /// A window of documents, each as JSON text.
    Documents(Vec<String>),
}

/// A successful response.
#[derive(Debug)]
pub struct HttpResponse {
    pub status: u16,
    pub body: ResponseBody,
}

/// The HTTP status of a kind of failure.
pub open spec fn status_of(kind: ErrorKind) -> u16 {
    match kind {
        ErrorKind::NotFound => 404,
        ErrorKind::BadRequest => 400,
        ErrorKind::BackendFailure => 500,
    }
}

impl ErrorKind {
    /// The HTTP status of this kind of failure.
    pub fn status_code(&self) -> (status: u16)
        ensures
            status == status_of(*self),
            400 <= status < 600,
    {
        match self {
            ErrorKind::NotFound => 404,
            ErrorKind::BadRequest => 400,
            ErrorKind::BackendFailure => 500,
        }
    }
}

impl ResponseError {
    pub fn new(kind: ErrorKind, message: String) -> (e: Self)
        ensures
            e.kind == kind,
            e.message == message,
    {
        ResponseError { kind, message }
    }

    /// The HTTP status under which this failure is surfaced.
    pub fn status_code(&self) -> (status: u16)
        ensures
            status == status_of(self.kind),
    {
        self.kind.status_code()
    }
}

/// The answer to a mutation, given what the registration returned: the
/// identifier under status 202 where it succeeded, the failure as it came
/// where it did not.
pub fn acknowledge(registered: Result<u64, ResponseError>) -> (r: Result<HttpResponse, ResponseError>)
    ensures
        match registered {
            Ok(id) => r == Ok::<HttpResponse, ResponseError>(
                HttpResponse { status: STATUS_ACCEPTED, body: ResponseBody::UpdateId(id) },
            ),
            Err(e) => r == Err::<HttpResponse, ResponseError>(e),
        },
{
    match registered {
        Ok(id) => Ok(HttpResponse { status: STATUS_ACCEPTED, body: ResponseBody::UpdateId(id) }),
        Err(e) => Err(e),
    }
}

/// The answer to a fetch of one document, given what the backend returned.
pub fn document_response(found: Result<String, ResponseError>) -> (r: Result<
    HttpResponse,
    ResponseError,
>)
    ensures
        match found {
            Ok(doc) => r == Ok::<HttpResponse, ResponseError>(
                HttpResponse { status: STATUS_OK, body: ResponseBody::Document(doc) },
            ),
            Err(e) => r == Err::<HttpResponse, ResponseError>(e),
        },
{
    match found {
        Ok(doc) => Ok(HttpResponse { status: STATUS_OK, body: ResponseBody::Document(doc) }),
        Err(e) => Err(e),
    }
}

/// The answer to a listing, given what the backend returned.
pub fn documents_response(found: Result<Vec<String>, ResponseError>) -> (r: Result<
    HttpResponse,
    ResponseError,
>)
    ensures
        match found {
            Ok(docs) => r == Ok::<HttpResponse, ResponseError>(
                HttpResponse { status: STATUS_OK, body: ResponseBody::Documents(docs) },
            ),
            Err(e) => r == Err::<HttpResponse, ResponseError>(e),
        },
{
    match found {
        Ok(docs) => Ok(HttpResponse { status: STATUS_OK, body: ResponseBody::Documents(docs) }),
        Err(e) => Err(e),
    }
}

} // verus!
