//! What holds of each contract as a whole, beyond any one call.

use vstd::prelude::*;

pub mod milestones;
pub mod multisig;
pub mod payroll;
pub mod price_oracle;
pub mod rate_limiter;
pub mod rbac;

verus! {

/// Whether a call went as it should: one that is turned down changes nothing and is told why,
/// and any other succeeds and leaves the state that it should.
pub open spec fn is_answered<S, T, F>(
    refusal: Option<F>,
    before: S,
    changed: S,
    after: S,
    r: Result<T, F>,
) -> bool {
    match refusal {
        Some(fault) => after == before && r == Err::<T, F>(fault),
        None => after == changed && r is Ok,
    }
}

} // verus!
