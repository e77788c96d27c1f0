use vstd::prelude::*;

verus! {

/// The coarse outcome a client observes from either probe: success or an
/// internal server error, with no further detail.
#[derive(Clone, Copy, Debug, PartialEq, Eq, Structural)]
pub enum HealthStatus {
    Success,
    ServerError,
}

impl HealthStatus {
    /// The HTTP status code that carries this outcome on the wire.
    pub open spec fn spec_code(self) -> u16 {
        match self {
            HealthStatus::Success => 200,
            HealthStatus::ServerError => 500,
        }
    }

    pub fn code(self) -> (code: u16)
        ensures
            code == self.spec_code(),
    {
        match self {
            HealthStatus::Success => 200,
            HealthStatus::ServerError => 500,
        }
    }

    pub fn is_success(self) -> (r: bool)
        ensures
            r == (self == HealthStatus::Success),
    {
        match self {
            HealthStatus::Success => true,
            HealthStatus::ServerError => false,
        }
    }
}

/// Liveness probe: reports success unconditionally, on every call, whatever
/// the state of the database or of anything else.
pub fn health_check() -> (status: HealthStatus)
    ensures
        status == HealthStatus::Success,
{
    HealthStatus::Success
}

/// The status a database probe reports when its trivial query fared as
/// `query_ok` says.
pub open spec fn spec_db_status(query_ok: bool) -> HealthStatus {
    if query_ok {
        HealthStatus::Success
    } else {
        HealthStatus::ServerError
    }
}

/// Readiness probe: collapses the outcome of one trivial round-trip query to
/// success or server error. Every failure — connection refused, bad
/// credentials, timeout, query error — is reported alike, with no detail.
pub fn health_check_db(query_result: Result<(), sqlx::Error>) -> (status: HealthStatus)
    ensures
        status == spec_db_status(query_result is Ok),
{
    match query_result {
        Ok(_) => HealthStatus::Success,
        Err(_) => HealthStatus::ServerError,
    }
}

/// The database health report is a function of the query outcome alone, not
/// of call history or of which error occurred: two probes whose queries fare
/// alike report the same status.
pub proof fn lemma_db_status_depends_on_outcome_alone(
    a: Result<(), sqlx::Error>,
    b: Result<(), sqlx::Error>,
)
    requires
        a is Ok <==> b is Ok,
    ensures
        spec_db_status(a is Ok) == spec_db_status(b is Ok),
{
}

} // verus!
