//! The result model: what became of each branch, and the engine failures it
//! is classified from.
use vstd::prelude::*;

verus! {

/// What became of one branch in one update run.
#[derive(Debug)]
pub enum BranchOutcome {
    Success,
    /// The path is not a usable repository.
    InvalidRepo,
    /// The fetch failed in transport or on the remote's side.
    NetworkError,
    /// The credential cascade ended without an accepted credential; holds
    /// the diagnostic of what was tried.
    AuthError(String),
    /// Integrating the fetched branch ran into a conflict.
    MergeError,
    /// Anything else, with the engine's diagnostic text.
    Unknown(String),
}

impl PartialEq for BranchOutcome {
    fn eq(&self, o: &BranchOutcome) -> (r: bool) {
        match (self, o) {
            (BranchOutcome::Success, BranchOutcome::Success) => true,
            (BranchOutcome::InvalidRepo, BranchOutcome::InvalidRepo) => true,
            (BranchOutcome::NetworkError, BranchOutcome::NetworkError) => true,
            (BranchOutcome::AuthError(a), BranchOutcome::AuthError(b)) => *a == *b,
            (BranchOutcome::MergeError, BranchOutcome::MergeError) => true,
            (BranchOutcome::Unknown(a), BranchOutcome::Unknown(b)) => *a == *b,
            _ => false,
        }
    }
}

impl vstd::std_specs::cmp::PartialEqSpecImpl for BranchOutcome {
    open spec fn obeys_eq_spec() -> bool {
        true
    }

    open spec fn eq_spec(&self, o: &BranchOutcome) -> bool {
        match (self, o) {
            (BranchOutcome::Success, BranchOutcome::Success) => true,
            (BranchOutcome::InvalidRepo, BranchOutcome::InvalidRepo) => true,
            (BranchOutcome::NetworkError, BranchOutcome::NetworkError) => true,
            (BranchOutcome::AuthError(a), BranchOutcome::AuthError(b)) => a@ == b@,
            (BranchOutcome::MergeError, BranchOutcome::MergeError) => true,
            (BranchOutcome::Unknown(a), BranchOutcome::Unknown(b)) => a@ == b@,
            _ => false,
        }
    }
}

pub const KIND_SUCCESS: &'static str = "Success";

pub const KIND_INVALID_REPO: &'static str = "InvalidRepo";

pub const KIND_NETWORK: &'static str = "NetworkError";

pub const KIND_AUTH: &'static str = "AuthError";

pub const KIND_MERGE: &'static str = "MergeError";

pub const KIND_UNKNOWN: &'static str = "Unknown";

/// The name of an outcome's kind.
pub open spec fn kind_name_spec(o: BranchOutcome) -> Seq<char> {
    match o {
        BranchOutcome::Success => KIND_SUCCESS@,
        BranchOutcome::InvalidRepo => KIND_INVALID_REPO@,
        BranchOutcome::NetworkError => KIND_NETWORK@,
        BranchOutcome::AuthError(_) => KIND_AUTH@,
        BranchOutcome::MergeError => KIND_MERGE@,
        BranchOutcome::Unknown(_) => KIND_UNKNOWN@,
    }
}

/// The diagnostic that an outcome carries: empty but for an authentication
/// failure or an unclassified one.
pub open spec fn detail_spec(o: BranchOutcome) -> Seq<char> {
    match o {
        BranchOutcome::AuthError(d) => d@,
        BranchOutcome::Unknown(d) => d@,
        _ => Seq::empty(),
    }
}

impl BranchOutcome {
    pub fn is_success(&self) -> (r: bool)
        ensures
            r == (*self is Success),
    {
        match self {
            BranchOutcome::Success => true,
            _ => false,
        }
    }

    /// A copy of this outcome.
    pub fn duplicate(&self) -> (r: BranchOutcome)
        ensures
            r == *self,
    {
        match self {
            BranchOutcome::Success => BranchOutcome::Success,
            BranchOutcome::InvalidRepo => BranchOutcome::InvalidRepo,
            BranchOutcome::NetworkError => BranchOutcome::NetworkError,
            BranchOutcome::AuthError(d) => BranchOutcome::AuthError(d.clone()),
            BranchOutcome::MergeError => BranchOutcome::MergeError,
            BranchOutcome::Unknown(d) => BranchOutcome::Unknown(d.clone()),
        }
    }

    /// The name of this outcome's kind.
    pub fn kind_name(&self) -> (r: String)
        ensures
            r@ == kind_name_spec(*self),
    {
        match self {
            BranchOutcome::Success => String::from_str(KIND_SUCCESS),
            BranchOutcome::InvalidRepo => String::from_str(KIND_INVALID_REPO),
            BranchOutcome::NetworkError => String::from_str(KIND_NETWORK),
            BranchOutcome::AuthError(_) => String::from_str(KIND_AUTH),
            BranchOutcome::MergeError => String::from_str(KIND_MERGE),
            BranchOutcome::Unknown(_) => String::from_str(KIND_UNKNOWN),
        }
    }

    /// The diagnostic this outcome carries.
    pub fn detail(&self) -> (r: &str)
        ensures
            r@ == detail_spec(*self),
    {
        match self {
            BranchOutcome::AuthError(d) => d.as_str(),
            BranchOutcome::Unknown(d) => d.as_str(),
            _ => {
                proof {
                    reveal_strlit("");
                }
                ""
            },
        }
    }
}

/// The kinds of failure that the version-control engine reports.
#[derive(Clone, Copy, Debug, PartialEq, Eq, Structural)]
pub enum FailureKind {
    /// The path could not be opened as a repository.
    NotARepository,
    /// Transport or remote-side failure.
    Network,
    /// The remote refused every credential.
    Auth,
    /// A conflict while integrating changes.
    Conflict,
    Other,
}

/// One failure of the engine, with its diagnostic text.
#[derive(Debug)]
pub struct EngineFailure {
    pub kind: FailureKind,
    pub detail: String,
}

/// The outcome that an engine failure stands for.
pub open spec fn classify_spec(f: EngineFailure) -> BranchOutcome {
    match f.kind {
        FailureKind::NotARepository => BranchOutcome::InvalidRepo,
        FailureKind::Network => BranchOutcome::NetworkError,
        FailureKind::Auth => BranchOutcome::AuthError(f.detail),
        FailureKind::Conflict => BranchOutcome::MergeError,
        FailureKind::Other => BranchOutcome::Unknown(f.detail),
    }
}

/// Maps an engine failure to the outcome it stands for.
pub fn classify(f: EngineFailure) -> (r: BranchOutcome)
    ensures
        r == classify_spec(f),
{
    match f.kind {
        FailureKind::NotARepository => BranchOutcome::InvalidRepo,
        FailureKind::Network => BranchOutcome::NetworkError,
        FailureKind::Auth => BranchOutcome::AuthError(f.detail),
        FailureKind::Conflict => BranchOutcome::MergeError,
        FailureKind::Other => BranchOutcome::Unknown(f.detail),
    }
}

/// The error codes of the engine that the update tells apart.
#[derive(Clone, Copy, Debug, PartialEq, Eq, Structural)]
pub enum EngineCode {
    Auth,
    Conflict,
    MergeConflict,
    NotFound,
    Other,
}

/// The error classes of the engine that the update tells apart.
#[derive(Clone, Copy, Debug, PartialEq, Eq, Structural)]
pub enum EngineClass {
    Repository,
    Net,
    Ssh,
    Http,
    Ssl,
    Other,
}

/// The kind of failure that an engine error stands for: the code decides
/// for authentication and conflicts, else the class for an unusable
/// repository and for transport failures.
pub open spec fn failure_kind_spec(code: EngineCode, class: EngineClass) -> FailureKind {
    match code {
        EngineCode::Auth => FailureKind::Auth,
        EngineCode::Conflict | EngineCode::MergeConflict => FailureKind::Conflict,
        _ => match class {
            EngineClass::Repository => FailureKind::NotARepository,
            EngineClass::Net | EngineClass::Ssh | EngineClass::Http | EngineClass::Ssl => FailureKind::Network,
            EngineClass::Other => FailureKind::Other,
        },
    }
}

/// Maps an engine error's code and class to the kind of failure.
pub fn failure_kind(code: EngineCode, class: EngineClass) -> (r: FailureKind)
    ensures
        r == failure_kind_spec(code, class),
{
    match code {
        EngineCode::Auth => FailureKind::Auth,
        EngineCode::Conflict | EngineCode::MergeConflict => FailureKind::Conflict,
        _ => match class {
            EngineClass::Repository => FailureKind::NotARepository,
            EngineClass::Net | EngineClass::Ssh | EngineClass::Http | EngineClass::Ssl => FailureKind::Network,
            EngineClass::Other => FailureKind::Other,
        },
    }
}

} // verus!
