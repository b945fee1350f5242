//! One repository's update: the branches asked for, and the per-branch
//! result that the run reports.
use vstd::prelude::*;
use vstd::string::StrSliceExecFns;
use crate::outcome::{BranchOutcome, detail_spec, kind_name_spec};

verus! {

/// A local repository and the remote to update it from.
#[derive(Debug)]
pub struct RepoTarget {
    pub path: String,
    pub remote: String,
}

/// The names that a list of entries holds.
pub open spec fn key_set<T>(s: Seq<(Seq<char>, T)>) -> Set<Seq<char>> {
    Set::new(|k: Seq<char>| exists|i: int| 0 <= i < s.len() && #[trigger] s[i].0 == k)
}

/// No name occurs twice.
pub open spec fn keys_distinct<T>(s: Seq<(Seq<char>, T)>) -> bool {
    forall|i: int, j: int| 0 <= i < j < s.len() ==> s[i].0 != s[j].0
}

/// The branches to update, each with whether uncommitted local changes are
/// stashed around the merge. A name occurs at most once.
#[derive(Debug)]
pub struct BranchSpec {
    entries: Vec<(String, bool)>,
}

impl View for BranchSpec {
    type V = Seq<(Seq<char>, bool)>;

    closed spec fn view(&self) -> Seq<(Seq<char>, bool)> {
        self.entries@.map_values(|e: (String, bool)| (e.0@, e.1))
    }
}

impl BranchSpec {
    #[verifier::type_invariant]
    spec fn inv(&self) -> bool {
        keys_distinct(self@)
    }

    pub fn new() -> (r: BranchSpec)
        ensures
            r@ == Seq::<(Seq<char>, bool)>::empty(),
            keys_distinct(r@),
    {
        let r = BranchSpec { entries: Vec::new() };
        assert(r@ =~= Seq::<(Seq<char>, bool)>::empty());
        r
    }

    /// The index of `name`, if present.
    fn find(&self, name: &str) -> (r: Option<usize>)
        ensures
            r matches Some(i) ==> i < self@.len() && self@[i as int].0 == name@,
            r is None ==> !key_set(self@).contains(name@),
    {
        let key = String::from_str(name);
        let mut i: usize = 0;
        while i < self.entries.len()
            invariant
                0 <= i <= self.entries.len(),
                key@ == name@,
                forall|j: int| 0 <= j < i ==> self@[j].0 != name@,
            decreases self.entries.len() - i,
        {
            if self.entries[i].0 == key {
                return Some(i);
            }
            i = i + 1;
        }
        None
    }

    /// Sets whether `name` stashes; a name already present keeps its place.
    pub fn insert(&mut self, name: String, stash: bool)
        ensures
            key_set(old(self)@).contains(name@) ==> exists|i: int|
                0 <= i < old(self)@.len() && old(self)@[i].0 == name@ && final(self)@ == old(
                    self,
                )@.update(i, (name@, stash)),
            !key_set(old(self)@).contains(name@) ==> final(self)@ == old(self)@.push(
                (name@, stash),
            ),
            keys_distinct(final(self)@),
            key_set(final(self)@) == key_set(old(self)@).insert(name@),
    {
        proof {
            use_type_invariant(&*self);
        }
        let ghost old_view = self@;
        let ghost n = name@;
        let found = self.find(name.as_str());
        let mut entries: Vec<(String, bool)> = Vec::new();
        std::mem::swap(&mut entries, &mut self.entries);
        match found {
            Some(i) => {
                entries.set(i, (name, stash));
                assert(entries@.map_values(|e: (String, bool)| (e.0@, e.1)) =~= old_view.update(
                    i as int,
                    (n, stash),
                ));
                assert(keys_distinct(old_view.update(i as int, (n, stash)))) by {
                    let v = old_view.update(i as int, (n, stash));
                    assert forall|a: int, b: int| 0 <= a < b < v.len() implies v[a].0 != v[b].0 by {
                        assert(v[a].0 == old_view[a].0);
                        assert(v[b].0 == old_view[b].0);
                    }
                }
                self.entries = entries;
                assert(self@ =~= old_view.update(i as int, (n, stash)));
                assert(key_set(self@) =~= key_set(old_view).insert(n)) by {
                    assert forall|k: Seq<char>| #[trigger] key_set(old_view).insert(n).contains(k) implies key_set(self@).contains(k) by {
                        if k != n {
                            let j = choose|j: int| 0 <= j < old_view.len() && #[trigger] old_view[j].0 == k;
                            assert(self@[j].0 == k);
                        } else {
                            assert(self@[i as int].0 == k);
                        }
                    }
                    assert forall|k: Seq<char>| #[trigger] key_set(self@).contains(k) implies key_set(old_view).insert(n).contains(k) by {
                        let j = choose|j: int| 0 <= j < self@.len() && #[trigger] self@[j].0 == k;
                        if j != i {
                            assert(old_view[j].0 == k);
                        }
                    }
                }
            },
            None => {
                entries.push((name, stash));
                assert(entries@.map_values(|e: (String, bool)| (e.0@, e.1)) =~= old_view.push(
                    (n, stash),
                ));
                assert(keys_distinct(old_view.push((n, stash)))) by {
                    let v = old_view.push((n, stash));
                    assert forall|a: int, b: int| 0 <= a < b < v.len() implies v[a].0 != v[b].0 by {
                        if b == old_view.len() {
                            assert(old_view[a].0 == v[a].0);
                            if v[a].0 == n {
                                assert(key_set(old_view).contains(n));
                            }
                        }
                    }
                }
                self.entries = entries;
                assert(self@ =~= old_view.push((n, stash)));
                assert(key_set(self@) =~= key_set(old_view).insert(n)) by {
                    assert forall|k: Seq<char>| #[trigger] key_set(old_view).insert(n).contains(k) implies key_set(self@).contains(k) by {
                        if k != n {
                            let j = choose|j: int| 0 <= j < old_view.len() && #[trigger] old_view[j].0 == k;
                            assert(self@[j].0 == k);
                        } else {
                            assert(self@[old_view.len() as int].0 == k);
                        }
                    }
                    assert forall|k: Seq<char>| #[trigger] key_set(self@).contains(k) implies key_set(old_view).insert(n).contains(k) by {
                        let j = choose|j: int| 0 <= j < self@.len() && #[trigger] self@[j].0 == k;
                        if j < old_view.len() {
                            assert(old_view[j].0 == k);
                        }
                    }
                }
            },
        }
    }

    pub fn len(&self) -> (r: usize)
        ensures
            r == self@.len(),
    {
        self.entries.len()
    }

    /// The name and stash flag at `i`.
    pub fn entry(&self, i: usize) -> (r: (&str, bool))
        requires
            i < self@.len(),
        ensures
            r.0@ == self@[i as int].0,
            r.1 == self@[i as int].1,
    {
        (self.entries[i].0.as_str(), self.entries[i].1)
    }

    /// Every name occurs once.
    pub fn keys_are_distinct(&self)
        ensures
            keys_distinct(self@),
    {
        proof {
            use_type_invariant(self);
        }
    }

    /// A copy of this set of branches.
    pub fn duplicate(&self) -> (r: BranchSpec)
        ensures
            r@ == self@,
            keys_distinct(r@),
    {
        proof {
            use_type_invariant(self);
        }
        let mut entries: Vec<(String, bool)> = Vec::new();
        let mut i: usize = 0;
        while i < self.entries.len()
            invariant
                0 <= i <= self.entries.len(),
                entries@.len() == i,
                forall|j: int| 0 <= j < i ==> entries@[j].0@ == self.entries@[j].0@ && entries@[j].1 == self.entries@[j].1,
            decreases self.entries.len() - i,
        {
            entries.push((self.entries[i].0.clone(), self.entries[i].1));
            i = i + 1;
        }
        assert(entries@.map_values(|e: (String, bool)| (e.0@, e.1)) =~= self@);
        let r = BranchSpec { entries };
        r
    }
}

/// The outcome of every branch of one repository, in the order the branches
/// were given.
#[derive(Debug)]
pub struct RepoResult {
    entries: Vec<(String, BranchOutcome)>,
}

impl View for RepoResult {
    type V = Seq<(Seq<char>, BranchOutcome)>;

    closed spec fn view(&self) -> Seq<(Seq<char>, BranchOutcome)> {
        self.entries@.map_values(|e: (String, BranchOutcome)| (e.0@, e.1))
    }
}

/// Some branch did not end in success.
pub open spec fn any_failed(s: Seq<(Seq<char>, BranchOutcome)>) -> bool {
    exists|i: int| 0 <= i < s.len() && !(#[trigger] s[i].1 is Success)
}

pub const ALL_UPDATED: &'static str = "every branch was updated";

/// The report line of a branch that did not succeed: its name, its kind of
/// outcome and, where there is one, the diagnostic.
pub open spec fn report_line(name: Seq<char>, o: BranchOutcome) -> Seq<char> {
    if detail_spec(o).len() == 0 {
        name + ": "@ + kind_name_spec(o) + "\n"@
    } else {
        name + ": "@ + kind_name_spec(o) + ": "@ + detail_spec(o) + "\n"@
    }
}

/// The report lines of the branches that did not succeed, in order.
pub open spec fn failure_lines(s: Seq<(Seq<char>, BranchOutcome)>) -> Seq<char>
    decreases s.len(),
{
    if s.len() == 0 {
        Seq::empty()
    } else {
        failure_lines(s.drop_last()) + if s.last().1 is Success {
            Seq::empty()
        } else {
            report_line(s.last().0, s.last().1)
        }
    }
}

pub open spec fn summary_spec(s: Seq<(Seq<char>, BranchOutcome)>) -> Seq<char> {
    if any_failed(s) {
        failure_lines(s)
    } else {
        ALL_UPDATED@
    }
}

impl RepoResult {
    pub fn len(&self) -> (r: usize)
        ensures
            r == self@.len(),
    {
        self.entries.len()
    }

    /// The branch name and outcome at `i`.
    pub fn entry(&self, i: usize) -> (r: (&str, &BranchOutcome))
        requires
            i < self@.len(),
        ensures
            r.0@ == self@[i as int].0,
            *r.1 == self@[i as int].1,
    {
        (self.entries[i].0.as_str(), &self.entries[i].1)
    }

    /// The outcome of the branch `name`, if it was asked for.
    pub fn get(&self, name: &str) -> (r: Option<&BranchOutcome>)
        ensures
            r is None <==> !key_set(self@).contains(name@),
            r matches Some(o) ==> exists|i: int|
                0 <= i < self@.len() && self@[i].0 == name@ && self@[i].1 == *o,
    {
        let key = String::from_str(name);
        let mut i: usize = 0;
        while i < self.entries.len()
            invariant
                0 <= i <= self.entries.len(),
                key@ == name@,
                forall|j: int| 0 <= j < i ==> self@[j].0 != name@,
            decreases self.entries.len() - i,
        {
            if self.entries[i].0 == key {
                assert(self@[i as int].0 == name@);
                return Some(&self.entries[i].1);
            }
            i = i + 1;
        }
        None
    }

    /// Whether some branch did not end in success.
    pub fn is_err(&self) -> (r: bool)
        ensures
            r == any_failed(self@),
    {
        let mut i: usize = 0;
        while i < self.entries.len()
            invariant
                0 <= i <= self.entries.len(),
                forall|j: int| 0 <= j < i ==> self@[j].1 is Success,
            decreases self.entries.len() - i,
        {
            if !self.entries[i].1.is_success() {
                assert(!(self@[i as int].1 is Success));
                return true;
            }
            i = i + 1;
        }
        false
    }

    /// Whether every branch ended in success.
    pub fn is_ok(&self) -> (r: bool)
        ensures
            r == !any_failed(self@),
    {
        !self.is_err()
    }

    /// A human-readable summary: a line for each branch that did not
    /// succeed, or a note that every branch was updated.
    pub fn summary(&self) -> (r: String)
        ensures
            r@ == summary_spec(self@),
    {
        if !self.is_err() {
            return String::from_str(ALL_UPDATED);
        }
        let mut msg = String::new();
        let mut i: usize = 0;
        while i < self.entries.len()
            invariant
                0 <= i <= self.entries.len(),
                msg@ == failure_lines(self@.subrange(0, i as int)),
            decreases self.entries.len() - i,
        {
            let o = &self.entries[i].1;
            if !o.is_success() {
                msg.append(self.entries[i].0.as_str());
                msg.append(": ");
                msg.append(o.kind_name().as_str());
                let d = o.detail();
                if d.unicode_len() > 0 {
                    msg.append(": ");
                    msg.append(d);
                }
                msg.append("\n");
            }
            proof {
                let sub = self@.subrange(0, i + 1);
                assert(sub.drop_last() =~= self@.subrange(0, i as int));
                assert(sub.last() == self@[i as int]);
            }
            assert(msg@ =~= failure_lines(self@.subrange(0, i + 1)));
            i = i + 1;
        }
        assert(self@.subrange(0, i as int) =~= self@);
        msg
    }
}

/// A repository update in progress, as values: the branches asked for and
/// the outcomes gathered so far, in the same order.
pub struct RunState {
    pub branches: Seq<(Seq<char>, bool)>,
    pub done: Seq<(Seq<char>, BranchOutcome)>,
}

/// Every branch marked `InvalidRepo`.
pub open spec fn all_invalid(b: Seq<(Seq<char>, bool)>) -> Seq<(Seq<char>, BranchOutcome)> {
    b.map_values(|e: (Seq<char>, bool)| (e.0, BranchOutcome::InvalidRepo))
}

/// How a run starts: with nothing done for a valid repository, and with
/// every branch already `InvalidRepo` for an invalid one, so that no branch
/// is handed out.
pub open spec fn run_start_spec(branches: Seq<(Seq<char>, bool)>, valid: bool) -> RunState {
    RunState { branches, done: if valid { Seq::empty() } else { all_invalid(branches) } }
}

/// The branch handed out next: the first one without an outcome.
pub open spec fn run_next_spec(s: RunState) -> Option<int> {
    if s.done.len() < s.branches.len() {
        Some(s.done.len() as int)
    } else {
        None
    }
}

/// Records the outcome of the branch handed out.
pub open spec fn run_record_spec(s: RunState, o: BranchOutcome) -> RunState {
    RunState { done: s.done.push((s.branches[s.done.len() as int].0, o)), ..s }
}

/// Drives a run with the given outcomes, one per branch handed out: the
/// final state and the indices of the branches handed out, in order.
pub open spec fn drive_spec(s: RunState, outcomes: Seq<BranchOutcome>) -> (RunState, Seq<int>)
    decreases outcomes.len(),
{
    match run_next_spec(s) {
        Some(i) => if outcomes.len() == 0 {
            (s, Seq::empty())
        } else {
            let (t, h) = drive_spec(run_record_spec(s, outcomes[0]), outcomes.drop_first());
            (t, seq![i] + h)
        },
        None => (s, Seq::empty()),
    }
}

/// A repository update driven one branch at a time: the caller asks which
/// branch to update next, updates it, and records its outcome.
pub struct RepoRun {
    branches: BranchSpec,
    done: Vec<(String, BranchOutcome)>,
}

impl View for RepoRun {
    type V = RunState;

    closed spec fn view(&self) -> RunState {
        RunState {
            branches: self.branches@,
            done: self.done@.map_values(|e: (String, BranchOutcome)| (e.0@, e.1)),
        }
    }
}

impl RepoRun {
    /// Starts the update of `branches`; `repo_valid` says whether the path
    /// opened as a repository.
    pub fn start(branches: BranchSpec, repo_valid: bool) -> (r: RepoRun)
        ensures
            r@ == run_start_spec(branches@, repo_valid),
    {
        let mut done: Vec<(String, BranchOutcome)> = Vec::new();
        if !repo_valid {
            let n = branches.len();
            let mut i: usize = 0;
            while i < n
                invariant
                    0 <= i <= n,
                    n == branches@.len(),
                    done@.len() == i,
                    forall|j: int|
                        0 <= j < i ==> (#[trigger] done@[j]).0@ == branches@[j].0
                            && done@[j].1 is InvalidRepo,
                decreases n - i,
            {
                let (name, _) = branches.entry(i);
                done.push((String::from_str(name), BranchOutcome::InvalidRepo));
                i = i + 1;
            }
        }
        let r = RepoRun { branches, done };
        assert(r@.done =~= run_start_spec(r@.branches, repo_valid).done);
        r
    }

    /// The branch to update next, with its stash flag, or `None` once
    /// every branch has an outcome.
    pub fn next_branch(&self) -> (r: Option<(String, bool)>)
        ensures
            run_next_spec(self@) is None ==> r is None,
            run_next_spec(self@) matches Some(i) ==> r matches Some(p) && p.0@
                == self@.branches[i].0 && p.1 == self@.branches[i].1,
    {
        let k = self.done.len();
        if k < self.branches.len() {
            let (name, stash) = self.branches.entry(k);
            Some((String::from_str(name), stash))
        } else {
            None
        }
    }

    /// Records the outcome of the branch handed out by `next_branch`.
    pub fn record(&mut self, o: BranchOutcome)
        requires
            run_next_spec(old(self)@) is Some,
        ensures
            final(self)@ == run_record_spec(old(self)@, o),
    {
        let ghost before = self@;
        let k = self.done.len();
        let (name, _) = self.branches.entry(k);
        self.done.push((String::from_str(name), o));
        assert(self@.done =~= run_record_spec(before, o).done);
    }

    /// The result, once every branch has an outcome.
    pub fn finish(self) -> (r: RepoResult)
        requires
            run_next_spec(self@) is None,
        ensures
            r@ == self@.done,
    {
        RepoResult { entries: self.done }
    }
}

/// Each branch is handed out exactly once, in order: driven with one
/// outcome per branch, a run of a valid repository hands out the indices
/// 0, 1, ... up to the number of branches, each once, and ends with every
/// branch's own outcome; a run of an invalid repository hands out none and
/// ends with every branch `InvalidRepo`.
pub proof fn law_each_branch_handed_out_once(
    branches: Seq<(Seq<char>, bool)>,
    valid: bool,
    outcomes: Seq<BranchOutcome>,
)
    requires
        outcomes.len() == branches.len(),
    ensures
        valid ==> drive_spec(run_start_spec(branches, valid), outcomes).1 == Seq::new(
            branches.len(),
            |i: int| i,
        ),
        valid ==> drive_spec(run_start_spec(branches, valid), outcomes).0.done == Seq::new(
            branches.len(),
            |i: int| (branches[i].0, outcomes[i]),
        ),
        !valid ==> drive_spec(run_start_spec(branches, valid), outcomes).1.len() == 0,
        !valid ==> drive_spec(run_start_spec(branches, valid), outcomes).0.done == all_invalid(
            branches,
        ),
{
    if valid {
        lemma_drive(run_start_spec(branches, valid), outcomes);
        let (t, h) = drive_spec(run_start_spec(branches, valid), outcomes);
        assert(h =~= Seq::new(branches.len(), |i: int| i));
        let s0 = run_start_spec(branches, valid);
        assert(s0.done.len() == 0);
        assert forall|i: int| 0 <= i < branches.len() implies t.done[i] == (branches[i].0, outcomes[i]) by {
            assert(t.done[s0.done.len() + i] == (s0.branches[s0.done.len() + i].0, outcomes[i]));
        }
        assert(t.done =~= Seq::new(branches.len(), |i: int| (branches[i].0, outcomes[i])));
    }
}

proof fn lemma_drive(s: RunState, outcomes: Seq<BranchOutcome>)
    requires
        s.done.len() + outcomes.len() == s.branches.len(),
    ensures
        ({
            let (t, h) = drive_spec(s, outcomes);
            &&& h.len() == outcomes.len()
            &&& forall|j: int| 0 <= j < h.len() ==> #[trigger] h[j] == s.done.len() + j
            &&& t.done.len() == s.branches.len()
            &&& forall|j: int| 0 <= j < s.done.len() ==> #[trigger] t.done[j] == s.done[j]
            &&& forall|j: int|
                0 <= j < outcomes.len() ==> #[trigger] t.done[s.done.len() + j] == (
                    s.branches[s.done.len() + j].0,
                    outcomes[j],
                )
        }),
    decreases outcomes.len(),
{
    if outcomes.len() > 0 {
        let s2 = run_record_spec(s, outcomes[0]);
        lemma_drive(s2, outcomes.drop_first());
        let (t, h2) = drive_spec(s2, outcomes.drop_first());
        let (t1, h) = drive_spec(s, outcomes);
        assert(h == seq![s.done.len() as int] + h2);
        assert forall|j: int| 0 <= j < h.len() implies #[trigger] h[j] == s.done.len() + j by {
            if j > 0 {
                assert(h[j] == h2[j - 1]);
            }
        }
        assert forall|j: int| 0 <= j < s.done.len() implies #[trigger] t1.done[j] == s.done[j] by {
            assert(t.done[j] == s2.done[j]);
        }
        assert forall|j: int| 0 <= j < outcomes.len() implies #[trigger] t1.done[s.done.len() + j]
            == (s.branches[s.done.len() + j].0, outcomes[j]) by {
            if j == 0 {
                assert(t.done[s.done.len() as int] == s2.done[s.done.len() as int]);
            } else {
                assert(t.done[s2.done.len() + (j - 1)] == (
                    s2.branches[s2.done.len() + (j - 1)].0,
                    outcomes.drop_first()[j - 1],
                ));
            }
        }
    }
}

/// `f`, called with the remote and the branch's name, can have returned `out`.
pub open spec fn updated_by<F: Fn(&str, &str, bool) -> BranchOutcome>(
    f: F,
    remote: Seq<char>,
    name: Seq<char>,
    stash: bool,
    out: BranchOutcome,
) -> bool {
    exists|a: &str, b: &str| a@ == remote && b@ == name && #[trigger] call_ensures(f, (a, b, stash), out)
}

/// Updates every branch of one repository and gathers the outcomes, by
/// driving a `RepoRun` with `update_branch`.
///
/// `repo_valid` says whether the target's path opened as a repository.
/// Where it did not, every branch is marked `InvalidRepo`, and
/// `update_branch`, which performs the fetch of one branch, may not be
/// called at all: its precondition is granted only for a valid repository.
/// Otherwise each branch is handed to `update_branch` in turn, a failure of
/// one not keeping the others from being tried. The result names exactly
/// the branches asked for, each once.
pub fn update_repo<F: Fn(&str, &str, bool) -> BranchOutcome>(
    target: &RepoTarget,
    branches: &BranchSpec,
    repo_valid: bool,
    update_branch: F,
) -> (r: RepoResult)
    requires
        repo_valid ==> forall|a: &str, b: &str, s: bool| #[trigger]
            call_requires(update_branch, (a, b, s)),
    ensures
        r@.len() == branches@.len(),
        forall|i: int| 0 <= i < r@.len() ==> #[trigger] r@[i].0 == branches@[i].0,
        key_set(r@) == key_set(branches@),
        keys_distinct(r@),
        !repo_valid ==> forall|i: int| 0 <= i < r@.len() ==> #[trigger] r@[i].1 is InvalidRepo,
        repo_valid ==> forall|i: int|
            0 <= i < r@.len() ==> updated_by(
                update_branch,
                target.remote@,
                branches@[i].0,
                branches@[i].1,
                #[trigger] r@[i].1,
            ),
{
    branches.keys_are_distinct();
    let mut run = RepoRun::start(branches.duplicate(), repo_valid);
    let ghost n = branches@.len();
    let mut next = run.next_branch();
    while next.is_some()
        invariant
            run_next_spec(run@) is None ==> next is None,
            run_next_spec(run@) matches Some(i) ==> next matches Some(p) && p.0@
                == branches@[i].0 && p.1 == branches@[i].1,
            run@.branches == branches@,
            n == branches@.len(),
            run@.done.len() <= n,
            repo_valid ==> forall|a: &str, b: &str, s: bool| #[trigger]
                call_requires(update_branch, (a, b, s)),
            forall|j: int| 0 <= j < run@.done.len() ==> #[trigger] run@.done[j].0 == branches@[j].0,
            !repo_valid ==> run@.done.len() == n,
            !repo_valid ==> forall|j: int| 0 <= j < run@.done.len() ==> #[trigger] run@.done[j].1 is InvalidRepo,
            repo_valid ==> forall|j: int|
                0 <= j < run@.done.len() ==> updated_by(
                    update_branch,
                    target.remote@,
                    branches@[j].0,
                    branches@[j].1,
                    #[trigger] run@.done[j].1,
                ),
        decreases n - run@.done.len(),
    {
        let (name, stash) = match next {
            Some(p) => p,
            None => (String::new(), false),
        };
        let remote = target.remote.as_str();
        let name_str = name.as_str();
        let o = update_branch(remote, name_str, stash);
        assert(call_ensures(update_branch, (remote, name_str, stash), o));
        run.record(o);
        next = run.next_branch();
    }
    let r = run.finish();
    assert(key_set(r@) =~= key_set(branches@)) by {
        assert forall|k: Seq<char>| #[trigger] key_set(r@).contains(k) implies key_set(branches@).contains(k) by {
            let j = choose|j: int| 0 <= j < r@.len() && #[trigger] r@[j].0 == k;
            assert(branches@[j].0 == k);
        }
        assert forall|k: Seq<char>| #[trigger] key_set(branches@).contains(k) implies key_set(r@).contains(k) by {
            let j = choose|j: int| 0 <= j < branches@.len() && #[trigger] branches@[j].0 == k;
            assert(r@[j].0 == k);
        }
    }
    assert(keys_distinct(r@)) by {
        assert forall|a: int, b: int| 0 <= a < b < r@.len() implies r@[a].0 != r@[b].0 by {
            assert(r@[a].0 == branches@[a].0);
            assert(r@[b].0 == branches@[b].0);
        }
    }
    r
}

/// Some repository of a run has a branch that did not succeed.
pub open spec fn run_failed_spec(results: Seq<RepoResult>) -> bool {
    exists|i: int| 0 <= i < results.len() && any_failed(#[trigger] results[i]@)
}

/// Whether a run is to report failure: some branch of some repository did
/// not end in success.
pub fn run_failed(results: &Vec<RepoResult>) -> (r: bool)
    ensures
        r == run_failed_spec(results@),
{
    let mut i: usize = 0;
    while i < results.len()
        invariant
            0 <= i <= results.len(),
            forall|j: int| 0 <= j < i ==> !any_failed(#[trigger] results@[j]@),
        decreases results.len() - i,
    {
        if results[i].is_err() {
            return true;
        }
        i = i + 1;
    }
    false
}

} // verus!
