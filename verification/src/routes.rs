use vstd::prelude::*;
use vstd::string::StrSliceExecFns;

verus! {

/// The two endpoints the service exposes, both registered under GET.
#[derive(Clone, Copy, Debug, PartialEq, Eq, Structural)]
pub enum Endpoint {
    /// Liveness probe, served at `/health`.
    Health,
    /// Database readiness probe, served at `/health/db`.
    HealthDb,
}

/// The fixed route table: which endpoint, if any, a request path reaches.
pub open spec fn spec_route(path: Seq<char>) -> Option<Endpoint> {
    if path == "/health"@ {
        Some(Endpoint::Health)
    } else if path == "/health/db"@ {
        Some(Endpoint::HealthDb)
    } else {
        None
    }
}

fn str_eq(a: &str, b: &str) -> (r: bool)
    ensures
        r == (a@ == b@),
{
    let a_len = a.unicode_len();
    let b_len = b.unicode_len();
    if a_len != b_len {
        assert(a@ != b@) by {
            assert(a@.len() != b@.len());
        }
        return false;
    }
    let mut i: usize = 0;
    while i < a_len
        invariant
            a_len == a@.len(),
            a@.len() == b@.len(),
            i <= a_len,
            forall|j: int| 0 <= j < i ==> a@[j] == b@[j],
        decreases a_len - i,
    {
        if a.get_char(i) != b.get_char(i) {
            assert(a@ != b@);
            return false;
        }
        i += 1;
    }
    assert(a@ =~= b@);
    true
}

/// The path under which an endpoint is served: the route table, inverted.
/// Registering each endpoint under this path serves exactly the table
/// `spec_route` describes.
pub fn route_path(endpoint: Endpoint) -> (path: &'static str)
    ensures
        spec_route(path@) == Some(endpoint),
{
    match endpoint {
        Endpoint::Health => "/health",
        Endpoint::HealthDb => {
            proof {
                reveal_strlit("/health");
                reveal_strlit("/health/db");
                assert("/health"@.len() == 7);
                assert("/health/db"@.len() == 10);
            }
            "/health/db"
        },
    }
}

/// Looks a request path up in the route table.
pub fn route_for(path: &str) -> (r: Option<Endpoint>)
    ensures
        r == spec_route(path@),
{
    if str_eq(path, "/health") {
        Some(Endpoint::Health)
    } else if str_eq(path, "/health/db") {
        Some(Endpoint::HealthDb)
    } else {
        None
    }
}

} // verus!
