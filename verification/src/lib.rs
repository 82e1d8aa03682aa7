//! Verified rules of the StellopayCore payroll contracts.

use vstd::prelude::*;

pub mod address;
pub mod env;
pub mod laws;
pub mod milestones;
pub mod multisig;
pub mod payroll;
pub mod price_oracle;
pub mod rate_limiter;
pub mod rbac;
pub mod storage;
pub mod table;

verus! {

} // verus!
