use vstd::prelude::*;

use crate::db::DBError;

verus! {

/// Status of a successful reply.
pub const STATUS_OK: u16 = 200;

/// Status of a reply to a request the client got wrong.
pub const STATUS_BAD_REQUEST: u16 = 400;

/// Status of a reply to a request the server failed on.
pub const STATUS_INTERNAL_SERVER_ERROR: u16 = 500;

/// The fixed message sent in place of any internal failure's own message.
pub const INTERNAL_ERROR_MESSAGE: &'static str = "500 internal server error";

/// Error response model: `{ success: false, err }`.
#[derive(Debug, Clone, Copy)]
pub struct ErrModel {
    pub success: bool,
    pub err: &'static str,
}

/// Success response model: `{ success: true, data }`.
#[derive(Debug, Clone)]
pub struct OkModel<T> {
    pub success: bool,
    pub data: T,
}

/// An `AppError` is an error response message.
#[derive(Debug, Clone, Copy)]
pub enum AppError {
    Invalid { err: &'static str },
    InternalError,
}

/// Result type returned by handlers.
pub type AppResult<T> = Result<OkModel<T>, AppError>;

/// A rendered error reply: its HTTP status and its JSON body model.
#[derive(Debug, Clone, Copy)]
pub struct ErrorReply {
    pub status: u16,
    pub body: ErrModel,
}

impl ErrorReply {
    pub fn status(&self) -> (r: u16)
        ensures
            r == self.status,
    {
        self.status
    }
}

impl AppError {
    /// The HTTP status this error is rendered with.
    pub open spec fn spec_status(&self) -> u16 {
        match self {
            AppError::Invalid { .. } => STATUS_BAD_REQUEST,
            AppError::InternalError => STATUS_INTERNAL_SERVER_ERROR,
        }
    }

    /// The message carried in the body of this error's reply.
    pub open spec fn spec_message(&self) -> Seq<char> {
        match self {
            AppError::Invalid { err } => err@,
            AppError::InternalError => INTERNAL_ERROR_MESSAGE@,
        }
    }

    pub fn status_code(&self) -> (r: u16)
        ensures
            r == self.spec_status(),
    {
        match self {
            AppError::Invalid { .. } => STATUS_BAD_REQUEST,
            AppError::InternalError => STATUS_INTERNAL_SERVER_ERROR,
        }
    }

    /// Renders the error: a validation error shows its own message, an
    /// internal error only the fixed one.
    pub fn error_response(&self) -> (r: ErrorReply)
        ensures
            r.status == self.spec_status(),
            !r.body.success,
            r.body.err@ == self.spec_message(),
    {
        let status = self.status_code();
        match self {
            AppError::Invalid { err } => ErrorReply {
                status,
                body: ErrModel { success: false, err: *err },
            },
            AppError::InternalError => ErrorReply {
                status,
                body: ErrModel { success: false, err: INTERNAL_ERROR_MESSAGE },
            },
        }
    }
}

/// A driver error becomes an internal error: its detail stays out of the
/// reply.
impl From<sqlx::Error> for AppError {
    fn from(err: sqlx::Error) -> (r: Self)
        ensures
            r is InternalError,
    {
        AppError::InternalError
    }
}

impl vstd::std_specs::convert::FromSpecImpl<sqlx::Error> for AppError {
    open spec fn obeys_from_spec() -> bool {
        true
    }

    open spec fn from_spec(err: sqlx::Error) -> AppError {
        AppError::InternalError
    }
}

/// Any data-source error becomes an internal error: its detail stays out of
/// the reply.
impl From<DBError> for AppError {
    fn from(err: DBError) -> (r: Self)
        ensures
            r is InternalError,
    {
        AppError::InternalError
    }
}

impl vstd::std_specs::convert::FromSpecImpl<DBError> for AppError {
    open spec fn obeys_from_spec() -> bool {
        true
    }

    open spec fn from_spec(err: DBError) -> AppError {
        AppError::InternalError
    }
}

/// Response of the app; `T` is the data type of a success response.
#[derive(Debug, Clone)]
pub enum AppResponse<T> {
    /// A 200 response with data.
    Success(T),
    /// A 400 response with an error message.
    Invalid(&'static str),
    /// A 500 response. The message is for the operator's log only and is
    /// never sent to the client.
    InternalError(&'static str),
}

impl<T> AppResponse<T> {
    /// The handler result an outcome converts to.
    pub open spec fn spec_response(self) -> AppResult<T> {
        match self {
            AppResponse::Success(data) => Ok(OkModel { success: true, data }),
            AppResponse::Invalid(err) => Err(AppError::Invalid { err }),
            AppResponse::InternalError(_) => Err(AppError::InternalError),
        }
    }

    pub fn response(self) -> (r: AppResult<T>)
        ensures
            r == self.spec_response(),
    {
        match self {
            AppResponse::Success(data) => Ok(OkModel { success: true, data }),
            AppResponse::Invalid(err) => Err(AppError::Invalid { err }),
            AppResponse::InternalError(_) => Err(AppError::InternalError),
        }
    }
}

/// The HTTP status a handler result is sent with: a success value goes out
/// as a 200 reply, an error with its own status.
pub open spec fn spec_reply_status<T>(r: AppResult<T>) -> u16 {
    match r {
        Ok(_) => STATUS_OK,
        Err(e) => e.spec_status(),
    }
}

/// Converting `Success(v)` gives a body with `success` set and `v` itself as
/// its data, sent with status 200.
pub proof fn success_carries_data<T>(v: T)
    ensures
        AppResponse::Success(v).spec_response() == Ok::<OkModel<T>, AppError>(
            OkModel { success: true, data: v },
        ),
        spec_reply_status(AppResponse::Success(v).spec_response()) == STATUS_OK,
{
}

/// Converting `Invalid(m)` gives an error rendered with status 400 whose
/// body carries exactly `m`.
pub proof fn invalid_carries_message<T>(m: &'static str)
    ensures
        AppResponse::<T>::Invalid(m).spec_response() matches Err(e) && e.spec_status()
            == STATUS_BAD_REQUEST && e.spec_message() == m@,
        spec_reply_status(AppResponse::<T>::Invalid(m).spec_response()) == STATUS_BAD_REQUEST,
{
}

/// Converting `InternalError(m)` gives an error rendered with status 500
/// whose body carries the fixed message, whatever `m` is: `m` never reaches
/// the body unless it is that very message.
pub proof fn internal_error_hides_message<T>(m: &'static str)
    ensures
        AppResponse::<T>::InternalError(m).spec_response() matches Err(e) && e.spec_status()
            == STATUS_INTERNAL_SERVER_ERROR && e.spec_message() == INTERNAL_ERROR_MESSAGE@,
        spec_reply_status(AppResponse::<T>::InternalError(m).spec_response())
            == STATUS_INTERNAL_SERVER_ERROR,
        AppResponse::<T>::InternalError(m).spec_response() matches Err(e) && (e.spec_message()
            == m@ ==> m@ == INTERNAL_ERROR_MESSAGE@),
{
}

} // verus!
