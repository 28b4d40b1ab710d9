//! Running a validator through a DePool: the decisions of the
//! `depool-elect` helper, with their contracts.
use vstd::prelude::*;

pub mod assurance;
pub mod balances;
pub mod cli;
pub mod clock;
pub mod config;
pub mod deploy;
pub mod depool;
pub mod digits;
pub mod election;
pub mod laws;
pub mod run;
pub mod text;
pub mod tokens;
pub mod wallet;

verus! {

} // verus!
