//! The update of one branch as a sequence of engine steps: open, fetch, and,
//! where local changes are to be stashed, stash, merge and restore the stash.
//! The engine performs each step and reports back; this machine decides the
//! next step and the branch's outcome.
use vstd::prelude::*;
use crate::cred::{CredentialResolver, failure_message_spec};
use crate::outcome::{BranchOutcome, EngineCode, EngineFailure, FailureKind, classify, classify_spec};

verus! {

/// Where an update stands.
#[derive(Clone, Copy, Debug, PartialEq, Eq, Structural)]
pub enum Stage {
    Opening,
    Fetching,
    Stashing,
    Merging,
    Unstashing,
    Done,
}

/// The step the engine is to perform next.
#[derive(Debug)]
pub enum BranchAction {
    /// Open the repository.
    Open,
    /// Fetch the branch from the remote.
    Fetch,
    /// Stash uncommitted local changes.
    Stash,
    /// Integrate the fetched branch.
    Merge,
    /// Restore the stashed changes.
    Unstash,
    /// The update is over, with this outcome.
    Finish(BranchOutcome),
}

/// What the engine reports of the step it performed.
#[derive(Debug)]
pub enum StepEvent {
    Completed,
    /// A stash step found no local changes to put aside.
    NothingToStash,
    Failed(EngineFailure),
}

/// The state of one branch update.
#[derive(Debug)]
pub struct BranchUpdate {
    /// Whether local changes are stashed around a merge; without it the
    /// branch is only fetched.
    pub stash: bool,
    pub stage: Stage,
    /// Whether a stash of local changes is held.
    pub stashed: bool,
    /// The outcome to report once the stash is restored, or once done.
    pub pending: BranchOutcome,
}

/// The state in which an update starts.
pub open spec fn start_spec(stash: bool) -> BranchUpdate {
    BranchUpdate { stash, stage: Stage::Opening, stashed: false, pending: BranchOutcome::Success }
}

/// Stashing, merging and restoring happen only in an update that stashes;
/// a stash is held only around a merge, while it is being restored, or
/// after its restore failed, and then the outcome is `Unknown`.
pub open spec fn wf_spec(u: BranchUpdate) -> bool {
    &&& (u.stage == Stage::Stashing || u.stage == Stage::Merging || u.stage == Stage::Unstashing)
        ==> u.stash
    &&& u.stashed ==> (u.stage == Stage::Merging || u.stage == Stage::Unstashing || u.stage
        == Stage::Done)
    &&& (u.stashed && u.stage == Stage::Done) ==> u.pending is Unknown
}

pub open spec fn finish(u: BranchUpdate, o: BranchOutcome) -> (BranchUpdate, BranchAction) {
    (BranchUpdate { stage: Stage::Done, stashed: false, pending: o, ..u }, BranchAction::Finish(o))
}

/// Ends an update whose stash could not be restored: git keeps the stash,
/// and the state says so.
pub open spec fn finish_holding(u: BranchUpdate, o: BranchOutcome) -> (BranchUpdate, BranchAction) {
    (BranchUpdate { stage: Stage::Done, stashed: true, pending: o, ..u }, BranchAction::Finish(o))
}

/// One step: the next state and the next action. A failed merge is held
/// back while a stash is restored. A failed restore ends the update as
/// `Unknown` with the engine's text, whatever was held back, since the
/// local changes then remain in the stash.
pub open spec fn step_spec(u: BranchUpdate, e: StepEvent) -> (BranchUpdate, BranchAction) {
    match u.stage {
        Stage::Opening => match e {
            StepEvent::Failed(_) => finish(u, BranchOutcome::InvalidRepo),
            _ => (BranchUpdate { stage: Stage::Fetching, ..u }, BranchAction::Fetch),
        },
        Stage::Fetching => match e {
            StepEvent::Failed(f) => finish(u, classify_spec(f)),
            _ => if u.stash {
                (BranchUpdate { stage: Stage::Stashing, ..u }, BranchAction::Stash)
            } else {
                finish(u, BranchOutcome::Success)
            },
        },
        Stage::Stashing => match e {
            StepEvent::Completed => (
                BranchUpdate { stage: Stage::Merging, stashed: true, ..u },
                BranchAction::Merge,
            ),
            StepEvent::NothingToStash => (
                BranchUpdate { stage: Stage::Merging, stashed: false, ..u },
                BranchAction::Merge,
            ),
            StepEvent::Failed(f) => finish(u, classify_spec(f)),
        },
        Stage::Merging => {
            let o = match e {
                StepEvent::Failed(f) => classify_spec(f),
                _ => BranchOutcome::Success,
            };
            if u.stashed {
                (BranchUpdate { stage: Stage::Unstashing, pending: o, ..u }, BranchAction::Unstash)
            } else {
                finish(u, o)
            }
        },
        Stage::Unstashing => match e {
            StepEvent::Failed(f) => finish_holding(u, BranchOutcome::Unknown(f.detail)),
            _ => finish(u, u.pending),
        },
        Stage::Done => (u, BranchAction::Finish(u.pending)),
    }
}

/// The failure to report for a fetch that the engine failed: where the
/// credential cascade ran out, or the engine reports an authentication
/// failure after some credential was offered, an authentication failure with
/// the resolver's diagnostic; otherwise the engine's own failure, unchanged.
pub open spec fn fetch_failure_spec(
    kind: FailureKind,
    detail: String,
    exhausted: bool,
    any_offered: bool,
    message: Seq<char>,
) -> (FailureKind, Seq<char>) {
    if exhausted || (kind == FailureKind::Auth && any_offered) {
        (FailureKind::Auth, message)
    } else {
        (kind, detail@)
    }
}

/// Turns an engine error from a fetch into the failure to report, given the
/// resolver that negotiated the fetch's credentials.
pub fn fetch_failure(kind: FailureKind, detail: String, resolver: &CredentialResolver) -> (r:
    EngineFailure)
    ensures
        (r.kind, r.detail@) == fetch_failure_spec(
            kind,
            detail,
            resolver@.exhausted,
            resolver@.attempts.len() > 0,
            failure_message_spec(resolver@),
        ),
{
    if resolver.is_exhausted() || (kind == FailureKind::Auth && resolver.attempts().len() > 0) {
        EngineFailure { kind: FailureKind::Auth, detail: resolver.failure_message() }
    } else {
        EngineFailure { kind, detail }
    }
}

/// What a failed stash step reports: a stash that found nothing to put
/// aside is no failure.
pub open spec fn stash_event_spec(code: EngineCode, f: EngineFailure) -> StepEvent {
    if code == EngineCode::NotFound {
        StepEvent::NothingToStash
    } else {
        StepEvent::Failed(f)
    }
}

/// Turns an engine error from the stash step into the event to report.
pub fn stash_event(code: EngineCode, f: EngineFailure) -> (r: StepEvent)
    ensures
        r == stash_event_spec(code, f),
{
    if code == EngineCode::NotFound {
        StepEvent::NothingToStash
    } else {
        StepEvent::Failed(f)
    }
}

impl BranchUpdate {
    /// An update that has not begun; the first action is `Open`.
    pub fn start(stash: bool) -> (r: (BranchUpdate, BranchAction))
        ensures
            r.0 == start_spec(stash),
            r.1 is Open,
    {
        (
            BranchUpdate {
                stash,
                stage: Stage::Opening,
                stashed: false,
                pending: BranchOutcome::Success,
            },
            BranchAction::Open,
        )
    }

    /// Takes the engine's report of the last step and returns the next step.
    pub fn step(&mut self, e: StepEvent) -> (r: BranchAction)
        ensures
            (*final(self), r) == step_spec(*old(self), e),
    {
        match self.stage {
            Stage::Opening => match e {
                StepEvent::Failed(_) => self.end_with(BranchOutcome::InvalidRepo),
                _ => {
                    self.stage = Stage::Fetching;
                    BranchAction::Fetch
                },
            },
            Stage::Fetching => match e {
                StepEvent::Failed(f) => self.end_with(classify(f)),
                _ => if self.stash {
                    self.stage = Stage::Stashing;
                    BranchAction::Stash
                } else {
                    self.end_with(BranchOutcome::Success)
                },
            },
            Stage::Stashing => match e {
                StepEvent::Completed => {
                    self.stage = Stage::Merging;
                    self.stashed = true;
                    BranchAction::Merge
                },
                StepEvent::NothingToStash => {
                    self.stage = Stage::Merging;
                    self.stashed = false;
                    BranchAction::Merge
                },
                StepEvent::Failed(f) => self.end_with(classify(f)),
            },
            Stage::Merging => {
                let o = match e {
                    StepEvent::Failed(f) => classify(f),
                    _ => BranchOutcome::Success,
                };
                if self.stashed {
                    self.stage = Stage::Unstashing;
                    self.pending = o;
                    BranchAction::Unstash
                } else {
                    self.end_with(o)
                }
            },
            Stage::Unstashing => match e {
                StepEvent::Failed(f) => {
                    self.stage = Stage::Done;
                    self.stashed = true;
                    self.pending = BranchOutcome::Unknown(f.detail);
                    BranchAction::Finish(self.pending.duplicate())
                },
                _ => {
                    let o = self.pending.duplicate();
                    self.end_with(o)
                },
            },
            Stage::Done => BranchAction::Finish(self.pending.duplicate()),
        }
    }

    fn end_with(&mut self, o: BranchOutcome) -> (r: BranchAction)
        ensures
            (*final(self), r) == finish(*old(self), o),
    {
        self.stage = Stage::Done;
        self.stashed = false;
        let a = BranchAction::Finish(o.duplicate());
        self.pending = o;
        a
    }
}

/// An update never ends holding a stash it did not try to restore: every
/// step keeps a stash confined to the merge and its restoration; an update
/// that finishes with a stash still held is one whose restore failed, and
/// it reports `Unknown`, never success.
pub proof fn law_stash_never_left(u: BranchUpdate, e: StepEvent)
    requires
        wf_spec(u),
    ensures
        wf_spec(step_spec(u, e).0),
        step_spec(u, e).1 is Finish && step_spec(u, e).0.stashed ==> ((u.stage == Stage::Unstashing
            && e is Failed) || (u.stage == Stage::Done && u.stashed)),
        step_spec(u, e).1 is Finish && step_spec(u, e).0.stashed ==> step_spec(u, e).0.pending is Unknown,
        u.stashed && step_spec(u, e).1 is Finish ==> (u.stage == Stage::Unstashing || u.stage
            == Stage::Done),
{
}

/// A merge that fails while local changes are stashed does not end the
/// update: the stash is restored first, and once it is, the update ends
/// with the merge's failure.
pub proof fn law_stash_restored_after_failed_merge(u: BranchUpdate, f: EngineFailure, e: StepEvent)
    requires
        u.stage == Stage::Merging,
        u.stashed,
        f.kind == FailureKind::Conflict,
        !(e is Failed),
    ensures
        step_spec(u, StepEvent::Failed(f)).1 is Unstash,
        step_spec(step_spec(u, StepEvent::Failed(f)).0, e).1 == BranchAction::Finish(
            BranchOutcome::MergeError,
        ),
        !step_spec(step_spec(u, StepEvent::Failed(f)).0, e).0.stashed,
{
}

/// When the stash cannot be restored after a failed merge, the update ends
/// reporting the restore's failure with the engine's text, and still
/// records the stash as held.
pub proof fn law_failed_restore_is_reported(u: BranchUpdate, f: EngineFailure, g: EngineFailure)
    requires
        u.stage == Stage::Merging,
        u.stashed,
    ensures
        step_spec(step_spec(u, StepEvent::Failed(f)).0, StepEvent::Failed(g)).1
            == BranchAction::Finish(BranchOutcome::Unknown(g.detail)),
        step_spec(step_spec(u, StepEvent::Failed(f)).0, StepEvent::Failed(g)).0.stashed,
{
}

} // verus!
