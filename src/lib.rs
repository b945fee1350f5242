//! Batch update of local git repositories: the credential cascade that picks
//! what to offer in each authentication round, the step machine of one
//! branch's update with its stash discipline, and the per-branch result of a
//! repository's update.
use vstd::prelude::*;

pub mod branch;
pub mod config;
pub mod cred;
pub mod outcome;
pub mod repo;

verus! {

} // verus!
