//! The settings that each run starts from, with their defaults.
use vstd::prelude::*;
use crate::repo::{BranchSpec, RepoTarget};

verus! {

/// The branch updated when a repository names none.
pub const DEFAULT_BRANCH: &'static str = "master";

/// The remote updated from when a repository names none.
pub const DEFAULT_REMOTE: &'static str = "origin";

/// The whole application's settings.
#[derive(Debug)]
pub struct AppConfig {
    /// The path to the user's public SSH key.
    pub ssh_pub_key_path: Option<String>,
    /// The path to the user's private SSH key.
    pub ssh_key_path: Option<String>,
    /// Settings for updating each repository.
    pub repos: Vec<RepoConfig>,
}

/// The settings of one repository.
#[derive(Debug)]
pub struct RepoConfig {
    /// Where the repository is checked out.
    pub path: String,
    /// Which branches to update, each with whether uncommitted changes are
    /// stashed around the merge; by default the default branch, not stashed.
    pub branches: Option<BranchSpec>,
    /// The remote to update from; by default `origin`.
    pub remote: Option<String>,
}

pub open spec fn remote_spec(c: RepoConfig) -> Seq<char> {
    match c.remote {
        Some(r) => r@,
        None => DEFAULT_REMOTE@,
    }
}

pub open spec fn branches_spec(c: RepoConfig) -> Seq<(Seq<char>, bool)> {
    match c.branches {
        Some(b) => b@,
        None => seq![(DEFAULT_BRANCH@, false)],
    }
}

impl RepoConfig {
    /// The remote to update from.
    pub fn remote_name(&self) -> (r: String)
        ensures
            r@ == remote_spec(*self),
    {
        match &self.remote {
            Some(r) => r.clone(),
            None => String::from_str(DEFAULT_REMOTE),
        }
    }

    /// The branches to update.
    pub fn branch_spec(&self) -> (r: BranchSpec)
        ensures
            r@ == branches_spec(*self),
    {
        match &self.branches {
            Some(b) => b.duplicate(),
            None => {
                let mut b = BranchSpec::new();
                b.insert(String::from_str(DEFAULT_BRANCH), false);
                b
            },
        }
    }

    /// The repository and remote that this configuration names.
    pub fn target(&self) -> (r: RepoTarget)
        ensures
            r.path@ == self.path@,
            r.remote@ == remote_spec(*self),
    {
        RepoTarget { path: self.path.clone(), remote: self.remote_name() }
    }
}

} // verus!
