use vstd::prelude::*;

use crate::db::{AppDB, DBError, DBResult, ProbeStep};
use crate::response::{
    spec_reply_status, AppError, AppResponse, AppResult, OkModel, STATUS_INTERNAL_SERVER_ERROR,
};

verus! {

/// The plain-text greeting of the root path.
pub const INDEX_GREETING: &'static str = "Hello, this is actix template API";

/// The data a successful database check replies with.
pub const DB_CHECK_PASSED: &'static str = "Test for db is success";

/// The message a forced validation failure carries.
pub const TEST_INVALID_MESSAGE: &'static str = "test invalid";

/// The message a forced internal failure logs.
pub const TEST_INTERNAL_MESSAGE: &'static str = "some severe error";

/// Body data of the ping reply.
#[derive(Debug, Clone, Copy)]
pub struct PingResponse {
    pub msg: &'static str,
}

/// Marker for the group of diagnostic endpoints under `/test`.
pub struct TestApp;

/// Reply to `GET /ping`: a success carrying `{ msg: "pong" }`.
pub fn ping() -> (r: AppResult<PingResponse>)
    ensures
        r matches Ok(m) && m.success && m.data.msg@ == "pong"@,
{
    AppResponse::Success(PingResponse { msg: "pong" }).response()
}

/// Outcome of `GET /test/internal`: an internal failure, whose own message
/// is kept from the client.
pub fn test_internal() -> (r: AppResult<()>)
    ensures
        r == AppResponse::<()>::InternalError(TEST_INTERNAL_MESSAGE).spec_response(),
        r matches Err(e) && e is InternalError,
{
    AppResponse::InternalError(TEST_INTERNAL_MESSAGE).response()
}

/// Outcome of `GET /test/invalid`: a validation failure carrying
/// `"test invalid"`.
pub fn test_invalid() -> (r: AppResult<()>)
    ensures
        r == AppResponse::<()>::Invalid(TEST_INVALID_MESSAGE).spec_response(),
        r matches Err(AppError::Invalid { err }) && err@ == TEST_INVALID_MESSAGE@,
{
    AppResponse::Invalid(TEST_INVALID_MESSAGE).response()
}

/// The result of `GET /test/db` for a probe that ended with `probe`.
pub open spec fn spec_test_db(probe: DBResult<()>) -> AppResult<&'static str> {
    match probe {
        Ok(_) => Ok(OkModel { success: true, data: DB_CHECK_PASSED }),
        Err(_) => Err(AppError::InternalError),
    }
}

/// Outcome of `GET /test/db` once the data-source probe has ended: a passed
/// probe gives a success with a confirmation, a failed one an internal error.
pub fn test_db(probe: DBResult<()>) -> (r: AppResult<&'static str>)
    ensures
        r == spec_test_db(probe),
{
    match probe {
        Ok(()) => AppResponse::Success(DB_CHECK_PASSED).response(),
        Err(e) => Err(AppError::from(e)),
    }
}

/// With the mock data source the probe ends at once as unimplemented, and
/// the database check is then answered with status 500.
pub proof fn mock_db_check_fails<P>(db: AppDB<P>)
    requires
        db is Mock,
    ensures
        db.settled_outcome() == Some(Err::<(), DBError>(DBError::Unimplemented)),
        db.settled_outcome() matches Some(o) && spec_reply_status(spec_test_db(o))
            == STATUS_INTERNAL_SERVER_ERROR,
{
}

} // verus!
