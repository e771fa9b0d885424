use vstd::prelude::*;

verus! {

/// A database driver error, carried through as it is.
#[verifier::external_type_specification]
#[verifier::external_body]
pub struct ExSqlxError(sqlx::Error);

/// The value the probe binds into its query and expects to read back.
pub const PROBE_VALUE: i64 = 150;

/// The data source: a handle `P` to a pool of live database connections,
/// or a mock that cannot run queries.
#[derive(Clone)]
pub enum AppDB<P> {
    Postgres(P),
    Mock,
}

/// Result of a data-source operation.
pub type DBResult<T> = Result<T, DBError>;

/// Why a data-source operation failed: the driver reported an error, or the
/// data source cannot do the operation at all.
#[derive(Debug)]
pub enum DBError {
    SqlxError(sqlx::Error),
    Unimplemented,
}

impl From<sqlx::Error> for DBError {
    fn from(err: sqlx::Error) -> (r: Self)
        ensures
            r == DBError::SqlxError(err),
    {
        DBError::SqlxError(err)
    }
}

impl vstd::std_specs::convert::FromSpecImpl<sqlx::Error> for DBError {
    open spec fn obeys_from_spec() -> bool {
        true
    }

    open spec fn from_spec(err: sqlx::Error) -> DBError {
        DBError::SqlxError(err)
    }
}

/// What remains to be done for a probe of the data source.
pub enum ProbeStep<'a, P> {
    /// Run the round-trip query on this pool, binding `bind`.
    Query { pool: &'a P, bind: i64 },
    /// The probe is over, with this outcome.
    Done(DBResult<()>),
}

impl<P> AppDB<P> {
    pub fn mock() -> (r: Self)
        ensures
            r is Mock,
    {
        AppDB::Mock
    }

    /// The outcome of a probe where the data source settles it without a
    /// query: the mock always fails as unimplemented.
    pub open spec fn settled_outcome(&self) -> Option<DBResult<()>> {
        match self {
            AppDB::Postgres(_) => None,
            AppDB::Mock => Some(Err(DBError::Unimplemented)),
        }
    }

    /// First step of a probe: a pool runs the round-trip query; the mock
    /// fails at once as unimplemented.
    pub fn begin_probe(&self) -> (r: ProbeStep<'_, P>)
        ensures
            self is Mock ==> r == ProbeStep::<P>::Done(Err(DBError::Unimplemented)),
            self.settled_outcome() matches Some(o) ==> r == ProbeStep::<P>::Done(o),
            self matches AppDB::Postgres(p) ==> r == (ProbeStep::Query { pool: p, bind: PROBE_VALUE }),
    {
        match self {
            AppDB::Postgres(pool) => ProbeStep::Query { pool, bind: PROBE_VALUE },
            AppDB::Mock => ProbeStep::Done(Err(DBError::Unimplemented)),
        }
    }
}

/// Last step of a probe, from the value the query read back: a driver error
/// fails the probe, the bound value read back passes it.
pub fn finish_probe(fetched: Result<i64, sqlx::Error>) -> (r: DBResult<()>)
    requires
        fetched matches Ok(v) ==> v == PROBE_VALUE,
    ensures
        fetched matches Err(e) ==> r == Err::<(), DBError>(DBError::SqlxError(e)),
        fetched is Ok ==> r is Ok,
{
    match fetched {
        Ok(_) => Ok(()),
        Err(e) => Err(DBError::from(e)),
    }
}

} // verus!
