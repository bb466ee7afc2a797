use vstd::prelude::*;

verus! {

/// The status that the health route reports.
#[derive(Clone, Copy, PartialEq, Eq, Structural, Debug)]
pub enum ApiHealth {
    Healthy,
}

/// Get the current status of the API: while the process serves, always `Healthy`.
pub fn health() -> (r: ApiHealth)
    ensures
        r == ApiHealth::Healthy,
{
    ApiHealth::Healthy
}

} // verus!
