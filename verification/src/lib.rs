//! Scans directory trees for project roots identified by marker files and
//! plans the cleanup of their build-artifact directories.

pub mod cli;
pub mod fsview;
pub mod laws;
pub mod rules;
pub mod scanner;
pub mod size;

use vstd::prelude::*;

verus! {

} // verus!
