use vstd::prelude::*;

pub mod errors;
pub mod laws;
pub mod lottery;
pub mod program_accounts;

verus! {

} // verus!
