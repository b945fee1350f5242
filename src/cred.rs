//! The credential cascade: one resolver per fetch negotiation, asked once per
//! handshake round which credential to offer next.
use vstd::prelude::*;

verus! {

/// The user name tried last when no other candidate is known.
pub const DEFAULT_SSH_USERNAME: &'static str = "git";

/// The kinds of credential that the remote accepts in one handshake round.
#[derive(Clone, Copy, Debug, PartialEq, Eq, Structural)]
pub struct AllowedKinds {
    pub username: bool,
    pub ssh_key: bool,
    pub user_pass: bool,
    pub default_cred: bool,
}

/// How far the credential helper got.
#[derive(Clone, Copy, Debug, PartialEq, Eq, Structural)]
pub enum HelperStatus {
    NotTried,
    Asked,
    Errored,
    Supplied,
}

/// The kinds of credential that the cascade offers.
#[derive(Clone, Copy, Debug, PartialEq, Eq, Structural)]
pub enum CredentialKind {
    Username,
    SshAgent,
    CredentialHelper,
    Default,
}

/// One credential offered during a negotiation: its kind, the user name the
/// round was about, and whether the remote accepted it.
#[derive(Debug)]
pub struct CredentialAttempt {
    pub kind: CredentialKind,
    pub identity: String,
    pub accepted: bool,
}

/// The mathematical form of a `CredentialAttempt`.
pub struct AttemptView {
    pub kind: CredentialKind,
    pub identity: Seq<char>,
    pub accepted: bool,
}

impl View for CredentialAttempt {
    type V = AttemptView;

    open spec fn view(&self) -> AttemptView {
        AttemptView { kind: self.kind, identity: self.identity@, accepted: self.accepted }
    }
}

pub open spec fn attempts_of(v: Seq<CredentialAttempt>) -> Seq<AttemptView> {
    v.map_values(|a: CredentialAttempt| a@)
}

/// A credential just offered, not yet known to be accepted.
pub open spec fn offered(kind: CredentialKind, identity: Seq<char>) -> AttemptView {
    AttemptView { kind, identity, accepted: false }
}

/// What the resolver tells the engine to offer in one round.
#[derive(Debug)]
pub enum CredentialAction {
    /// Answer a user-name request with this name.
    Username(String),
    /// Ask the local ssh agent for a key for this user.
    SshAgent(String),
    /// Ask git's configured credential helper for a user name and password.
    CredentialHelper,
    /// Offer the engine's default credential.
    Default,
    /// Nothing is left to offer: the cascade is exhausted.
    Refuse,
}

/// The mathematical form of a `CredentialAction`.
pub enum Offer {
    Username(Seq<char>),
    SshAgent(Seq<char>),
    CredentialHelper,
    Default,
    Refuse,
}

impl View for CredentialAction {
    type V = Offer;

    open spec fn view(&self) -> Offer {
        match self {
            CredentialAction::Username(s) => Offer::Username(s@),
            CredentialAction::SshAgent(s) => Offer::SshAgent(s@),
            CredentialAction::CredentialHelper => Offer::CredentialHelper,
            CredentialAction::Default => Offer::Default,
            CredentialAction::Refuse => Offer::Refuse,
        }
    }
}

/// The session state of one negotiation, as values.
pub struct ResolverState {
    /// User names to answer a user-name request with, in priority order.
    pub candidates: Seq<Seq<char>>,
    /// How many candidates have been handed out.
    pub next: nat,
    /// The user name handed out last, if any.
    pub current: Option<Seq<char>>,
    /// The user names tried against the ssh agent, in order.
    pub agent: Seq<Seq<char>>,
    pub helper: HelperStatus,
    pub default_tried: bool,
    /// Set once a round found nothing left to offer.
    pub exhausted: bool,
    /// Every credential offered, in order.
    pub attempts: Seq<AttemptView>,
    /// How many candidates had been handed out when the current fetch began.
    pub fetch_start: nat,
}

pub open spec fn names_of(v: Seq<String>) -> Seq<Seq<char>> {
    v.map_values(|s: String| s@)
}

pub open spec fn opt_name(o: Option<&str>) -> Option<Seq<char>> {
    match o {
        Some(s) => Some(s@),
        None => None,
    }
}

pub open spec fn opt_string(o: Option<String>) -> Seq<Seq<char>> {
    match o {
        Some(s) => seq![s@],
        None => Seq::empty(),
    }
}

/// The candidate user names: the configured one, the operating-system user,
/// the one the credential helper reported, and the default identity last.
pub open spec fn candidates_spec(
    config_user: Option<String>,
    os_user: Option<String>,
    helper_user: Option<String>,
) -> Seq<Seq<char>> {
    opt_string(config_user) + opt_string(os_user) + opt_string(helper_user) + seq![
        DEFAULT_SSH_USERNAME@,
    ]
}

/// The state in which a negotiation starts.
pub open spec fn fresh_state(candidates: Seq<Seq<char>>) -> ResolverState {
    ResolverState {
        candidates,
        next: 0,
        current: None,
        agent: Seq::empty(),
        helper: HelperStatus::NotTried,
        default_tried: false,
        exhausted: false,
        attempts: Seq::empty(),
        fetch_start: 0,
    }
}

/// The user name that an ssh-key request is about: the one the handshake
/// names, else the one handed out last, else the default identity.
pub open spec fn key_user(s: ResolverState, user: Option<Seq<char>>) -> Seq<char> {
    match user {
        Some(u) => u,
        None => match s.current {
            Some(c) => c,
            None => DEFAULT_SSH_USERNAME@,
        },
    }
}

/// One handshake round: the next state and what to offer.
pub open spec fn respond_spec(s: ResolverState, allowed: AllowedKinds, user: Option<Seq<char>>) -> (
    ResolverState,
    Offer,
) {
    if allowed.username {
        if s.next < s.candidates.len() {
            let c = s.candidates[s.next as int];
            (
                ResolverState {
                    next: s.next + 1,
                    current: Some(c),
                    attempts: s.attempts.push(offered(CredentialKind::Username, c)),
                    ..s
                },
                Offer::Username(c),
            )
        } else {
            (ResolverState { exhausted: true, ..s }, Offer::Refuse)
        }
    } else {
        let name = key_user(s, user);
        if allowed.ssh_key && !s.agent.contains(name) {
            (
                ResolverState {
                    agent: s.agent.push(name),
                    attempts: s.attempts.push(offered(CredentialKind::SshAgent, name)),
                    ..s
                },
                Offer::SshAgent(name),
            )
        } else if allowed.user_pass && s.helper == HelperStatus::NotTried {
            (
                ResolverState {
                    helper: HelperStatus::Asked,
                    attempts: s.attempts.push(offered(CredentialKind::CredentialHelper, name)),
                    ..s
                },
                Offer::CredentialHelper,
            )
        } else if allowed.default_cred && !s.default_tried {
            (
                ResolverState {
                    default_tried: true,
                    attempts: s.attempts.push(offered(CredentialKind::Default, name)),
                    ..s
                },
                Offer::Default,
            )
        } else {
            (ResolverState { exhausted: true, ..s }, Offer::Refuse)
        }
    }
}

/// The first line of the message for a failed negotiation.
pub const AUTH_FAILED: &'static str = "failed to authenticate when downloading repository";

pub const AGENT_TRIED: &'static str =
    "\nattempted ssh-agent authentication, but none of the usernames ";

pub const AGENT_FAILED: &'static str = " succeeded";

pub const HELPER_ERRORED: &'static str =
    "\nattempted to find username/password via git's `credential.helper` support, but failed";

pub const HELPER_REJECTED: &'static str =
    "\nattempted to find username/password via `credential.helper`, but maybe the found credentials were incorrect";

pub open spec fn quoted(n: Seq<char>) -> Seq<char> {
    "`"@ + n + "`"@
}

/// The names in back quotes, separated by a comma and a space.
pub open spec fn name_list(ns: Seq<Seq<char>>) -> Seq<char>
    decreases ns.len(),
{
    if ns.len() == 0 {
        Seq::empty()
    } else if ns.len() == 1 {
        quoted(ns[0])
    } else {
        name_list(ns.drop_last()) + ", "@ + quoted(ns.last())
    }
}

pub open spec fn agent_line(agent: Seq<Seq<char>>) -> Seq<char> {
    if agent.len() == 0 {
        Seq::empty()
    } else {
        AGENT_TRIED@ + name_list(agent) + AGENT_FAILED@
    }
}

pub open spec fn helper_line(h: HelperStatus) -> Seq<char> {
    match h {
        HelperStatus::Errored => HELPER_ERRORED@,
        HelperStatus::Supplied => HELPER_REJECTED@,
        _ => Seq::empty(),
    }
}

/// The diagnostic for a negotiation that ended without an accepted
/// credential: every user name tried against the ssh agent, and whether the
/// credential helper failed outright or gave credentials the remote refused.
pub open spec fn failure_message_spec(s: ResolverState) -> Seq<char> {
    AUTH_FAILED@ + agent_line(s.agent) + helper_line(s.helper)
}

/// Whether a failed fetch is to be run again with the next candidate user
/// name. The engine asks for a user name once per connection, so a name whose
/// key the agent could not supply is replaced only by fetching again. That is
/// done when the fetch failed because the cascade ran out, a candidate was
/// handed out during that fetch, and candidates remain.
pub open spec fn fetch_again_spec(s: ResolverState, failed: bool) -> bool {
    failed && s.exhausted && s.fetch_start < s.next && s.next < s.candidates.len()
}

/// The state in which the next fetch of the same negotiation begins.
pub open spec fn next_fetch_spec(s: ResolverState) -> ResolverState {
    ResolverState { exhausted: false, fetch_start: s.next, ..s }
}

/// The negotiation state for one fetch.
pub struct CredentialResolver {
    candidates: Vec<String>,
    next: usize,
    current: Option<String>,
    agent: Vec<String>,
    helper: HelperStatus,
    default_tried: bool,
    exhausted: bool,
    attempts: Vec<CredentialAttempt>,
    fetch_start: usize,
}

impl View for CredentialResolver {
    type V = ResolverState;

    closed spec fn view(&self) -> ResolverState {
        ResolverState {
            candidates: names_of(self.candidates@),
            next: self.next as nat,
            current: match self.current {
                Some(c) => Some(c@),
                None => None,
            },
            agent: names_of(self.agent@),
            helper: self.helper,
            default_tried: self.default_tried,
            exhausted: self.exhausted,
            attempts: attempts_of(self.attempts@),
            fetch_start: self.fetch_start as nat,
        }
    }
}

/// Builds the candidate user names in priority order.
pub fn username_candidates(
    config_user: Option<String>,
    os_user: Option<String>,
    helper_user: Option<String>,
) -> (r: Vec<String>)
    ensures
        names_of(r@) == candidates_spec(config_user, os_user, helper_user),
{
    let ghost (c, o, h) = (config_user, os_user, helper_user);
    let mut r: Vec<String> = Vec::new();
    if let Some(u) = config_user {
        r.push(u);
    }
    if let Some(u) = os_user {
        r.push(u);
    }
    if let Some(u) = helper_user {
        r.push(u);
    }
    r.push(String::from_str(DEFAULT_SSH_USERNAME));
    assert(names_of(r@) =~= candidates_spec(c, o, h));
    r
}

/// Whether `name` is among `v`.
fn contains_name(v: &Vec<String>, name: &String) -> (r: bool)
    ensures
        r == names_of(v@).contains(name@),
{
    let mut i: usize = 0;
    while i < v.len()
        invariant
            0 <= i <= v.len(),
            forall|j: int| 0 <= j < i ==> v@[j]@ != name@,
        decreases v.len() - i,
    {
        if v[i] == *name {
            assert(names_of(v@)[i as int] == name@);
            return true;
        }
        i = i + 1;
    }
    assert(!names_of(v@).contains(name@)) by {
        if names_of(v@).contains(name@) {
            let j = choose|j: int| 0 <= j < names_of(v@).len() && names_of(v@)[j] == name@;
            assert(v@[j]@ == name@);
        }
    }
    false
}

impl CredentialResolver {
    /// A resolver at the start of a negotiation.
    pub fn new(candidates: Vec<String>) -> (r: Self)
        ensures
            r@ == fresh_state(names_of(candidates@)),
    {
        let r = CredentialResolver {
            candidates,
            next: 0,
            current: None,
            agent: Vec::new(),
            helper: HelperStatus::NotTried,
            default_tried: false,
            exhausted: false,
            attempts: Vec::new(),
            fetch_start: 0,
        };
        assert(names_of(r.agent@) =~= Seq::<Seq<char>>::empty());
        assert(attempts_of(r.attempts@) =~= Seq::<AttemptView>::empty());
        r
    }

    /// Answers one handshake round: `allowed` is what the remote accepts now,
    /// `username` the user name that the handshake names, if any.
    pub fn respond(&mut self, allowed: AllowedKinds, username: Option<&str>) -> (r:
        CredentialAction)
        ensures
            (final(self)@, r@) == respond_spec(old(self)@, allowed, opt_name(username)),
    {
        if allowed.username {
            if self.next < self.candidates.len() {
                let c = self.candidates[self.next].clone();
                self.next = self.next + 1;
                self.current = Some(c.clone());
                self.log(CredentialKind::Username, c.clone());
                return CredentialAction::Username(c);
            } else {
                self.exhausted = true;
                return CredentialAction::Refuse;
            }
        }
        let name = match username {
            Some(u) => String::from_str(u),
            None => match &self.current {
                Some(c) => c.clone(),
                None => String::from_str(DEFAULT_SSH_USERNAME),
            },
        };
        if allowed.ssh_key && !contains_name(&self.agent, &name) {
            let ghost before = self.agent@;
            self.agent.push(name.clone());
            assert(names_of(self.agent@) =~= names_of(before).push(name@));
            self.log(CredentialKind::SshAgent, name.clone());
            CredentialAction::SshAgent(name)
        } else if allowed.user_pass && self.helper == HelperStatus::NotTried {
            self.helper = HelperStatus::Asked;
            self.log(CredentialKind::CredentialHelper, name);
            CredentialAction::CredentialHelper
        } else if allowed.default_cred && !self.default_tried {
            self.default_tried = true;
            self.log(CredentialKind::Default, name);
            CredentialAction::Default
        } else {
            self.exhausted = true;
            CredentialAction::Refuse
        }
    }
    fn log(&mut self, kind: CredentialKind, identity: String)
        ensures
            final(self)@ == (ResolverState {
                attempts: old(self)@.attempts.push(offered(kind, identity@)),
                ..old(self)@
            }),
    {
        let ghost before = self.attempts@;
        self.attempts.push(CredentialAttempt { kind, identity, accepted: false });
        assert(attempts_of(self.attempts@) =~= attempts_of(before).push(offered(kind, identity@)));
    }

    /// Notes that the remote accepted the credential offered last.
    pub fn record_accepted(&mut self)
        ensures
            final(self)@ == (ResolverState {
                attempts: if old(self)@.attempts.len() == 0 {
                    old(self)@.attempts
                } else {
                    old(self)@.attempts.update(
                        old(self)@.attempts.len() - 1,
                        AttemptView { accepted: true, ..old(self)@.attempts.last() },
                    )
                },
                ..old(self)@
            }),
    {
        let n = self.attempts.len();
        if n > 0 {
            let ghost before = self.attempts@;
            let a = CredentialAttempt {
                kind: self.attempts[n - 1].kind,
                identity: self.attempts[n - 1].identity.clone(),
                accepted: true,
            };
            self.attempts.set(n - 1, a);
            assert(attempts_of(self.attempts@) =~= attempts_of(before).update(
                n - 1,
                AttemptView { accepted: true, ..attempts_of(before).last() },
            ));
        }
    }

    /// Whether a fetch that ended with `failed` is to be run again, with the
    /// next candidate user name.
    pub fn should_fetch_again(&self, failed: bool) -> (r: bool)
        ensures
            r == fetch_again_spec(self@, failed),
    {
        failed && self.exhausted && self.fetch_start < self.next && self.next
            < self.candidates.len()
    }

    /// Prepares the resolver for another fetch of the same negotiation: what
    /// was tried is kept, so no credential is offered twice.
    pub fn begin_next_fetch(&mut self)
        ensures
            final(self)@ == next_fetch_spec(old(self)@),
    {
        self.exhausted = false;
        self.fetch_start = self.next;
    }

    /// Every credential offered so far, in order.
    pub fn attempts(&self) -> (r: &Vec<CredentialAttempt>)
        ensures
            attempts_of(r@) == self@.attempts,
    {
        &self.attempts
    }

    /// Notes what the credential helper did after it was asked: failed
    /// outright, or gave credentials.
    pub fn record_helper_result(&mut self, errored: bool)
        ensures
            final(self)@ == (ResolverState {
                helper: if errored {
                    HelperStatus::Errored
                } else {
                    HelperStatus::Supplied
                },
                ..old(self)@
            }),
    {
        self.helper = if errored {
            HelperStatus::Errored
        } else {
            HelperStatus::Supplied
        };
    }

    /// The user names tried against the ssh agent so far, in order.
    pub fn agent_attempts(&self) -> (r: &Vec<String>)
        ensures
            names_of(r@) == self@.agent,
    {
        &self.agent
    }

    /// Whether some round found nothing left to offer.
    pub fn is_exhausted(&self) -> (r: bool)
        ensures
            r == self@.exhausted,
    {
        self.exhausted
    }

    /// The diagnostic to report when the negotiation failed.
    pub fn failure_message(&self) -> (r: String)
        ensures
            r@ == failure_message_spec(self@),
    {
        let mut msg = String::from_str(AUTH_FAILED);
        if self.agent.len() > 0 {
            msg.append(AGENT_TRIED);
            let ghost start = msg@;
            let ghost names = names_of(self.agent@);
            let mut i: usize = 0;
            while i < self.agent.len()
                invariant
                    0 <= i <= self.agent.len(),
                    names == names_of(self.agent@),
                    msg@ == start + name_list(names.subrange(0, i as int)),
                decreases self.agent.len() - i,
            {
                if i > 0 {
                    msg.append(", ");
                }
                msg.append("`");
                msg.append(self.agent[i].as_str());
                msg.append("`");
                proof {
                    let sub = names.subrange(0, i + 1);
                    assert(sub.drop_last() =~= names.subrange(0, i as int));
                    assert(sub.last() == self.agent@[i as int]@);
                }
                assert(msg@ =~= start + name_list(names.subrange(0, i + 1)));
                i = i + 1;
            }
            assert(names.subrange(0, i as int) =~= names);
            msg.append(AGENT_FAILED);
        }
        match self.helper {
            HelperStatus::Errored => msg.append(HELPER_ERRORED),
            HelperStatus::Supplied => msg.append(HELPER_REJECTED),
            _ => {},
        }
        assert(msg@ =~= failure_message_spec(self@));
        msg
    }
}

/// Asking the ssh agent never repeats a user name: the names tried stay
/// distinct, and a name is offered to the agent only if it was not tried
/// before.
pub proof fn law_agent_names_distinct(s: ResolverState, allowed: AllowedKinds, user: Option<Seq<char>>)
    requires
        s.agent.no_duplicates(),
    ensures
        respond_spec(s, allowed, user).0.agent.no_duplicates(),
        respond_spec(s, allowed, user).1 matches Offer::SshAgent(n) ==> !s.agent.contains(n),
{
    let (t, o) = respond_spec(s, allowed, user);
    if t.agent != s.agent {
        let n = key_user(s, user);
        assert(t.agent == s.agent.push(n));
        assert forall|i: int, j: int| 0 <= i < j < t.agent.len() implies t.agent[i] != t.agent[j] by {
            if j == s.agent.len() {
                assert(s.agent[i] == t.agent[i]);
            }
        }
    }
}

/// When the agent's key for a user is refused and the next round allows a
/// password, the cascade falls through to the credential helper, and the
/// agent has been asked exactly once, for that user.
pub proof fn law_agent_once_then_helper(
    candidates: Seq<Seq<char>>,
    user: Seq<char>,
    first: AllowedKinds,
    second: AllowedKinds,
)
    requires
        !first.username,
        first.ssh_key,
        !second.username,
        second.user_pass,
    ensures
        ({
            let (s1, o1) = respond_spec(fresh_state(candidates), first, Some(user));
            let (s2, o2) = respond_spec(s1, second, Some(user));
            o1 == Offer::SshAgent(user) && o2 == Offer::CredentialHelper && s2.agent == seq![user]
        }),
{
    let (s1, o1) = respond_spec(fresh_state(candidates), first, Some(user));
    assert(s1.agent =~= seq![user]);
    assert(s1.agent.contains(user)) by {
        assert(s1.agent[0] == user);
    }
}

/// One event of a whole negotiation: a handshake round, or the start of
/// another fetch.
pub enum NegotiationEvent {
    Round(AllowedKinds, Option<Seq<char>>),
    NextFetch,
}

/// The state after a negotiation's events, in order, from `s`.
pub open spec fn negotiate_spec(s: ResolverState, events: Seq<NegotiationEvent>) -> ResolverState
    decreases events.len(),
{
    if events.len() == 0 {
        s
    } else {
        let t = match events[0] {
            NegotiationEvent::Round(allowed, user) => respond_spec(s, allowed, user).0,
            NegotiationEvent::NextFetch => next_fetch_spec(s),
        };
        negotiate_spec(t, events.subrange(1, events.len() as int))
    }
}

/// Over a whole negotiation, through any rounds and any number of fetches,
/// the ssh agent is never asked twice for the same user name.
pub proof fn law_negotiation_agent_names_distinct(
    candidates: Seq<Seq<char>>,
    events: Seq<NegotiationEvent>,
)
    ensures
        negotiate_spec(fresh_state(candidates), events).agent.no_duplicates(),
{
    lemma_negotiate_keeps_agent_distinct(fresh_state(candidates), events);
}

proof fn lemma_negotiate_keeps_agent_distinct(s: ResolverState, events: Seq<NegotiationEvent>)
    requires
        s.agent.no_duplicates(),
    ensures
        negotiate_spec(s, events).agent.no_duplicates(),
    decreases events.len(),
{
    if events.len() > 0 {
        let t = match events[0] {
            NegotiationEvent::Round(allowed, user) => {
                law_agent_names_distinct(s, allowed, user);
                respond_spec(s, allowed, user).0
            },
            NegotiationEvent::NextFetch => next_fetch_spec(s),
        };
        lemma_negotiate_keeps_agent_distinct(t, events.subrange(1, events.len() as int));
    }
}

/// Fetching again is bounded: each further fetch begins with more candidate
/// user names used up than the one before, and only while one remains, so a
/// negotiation runs at most one fetch more than there are candidates.
pub proof fn law_fetch_again_uses_up_a_candidate(s: ResolverState, failed: bool)
    requires
        fetch_again_spec(s, failed),
    ensures
        next_fetch_spec(s).fetch_start > s.fetch_start,
        next_fetch_spec(s).fetch_start < s.candidates.len(),
        next_fetch_spec(s).candidates == s.candidates,
{
}

/// A round never hands back a candidate already used, and never changes
/// where the current fetch began.
pub proof fn law_round_keeps_fetch_progress(s: ResolverState, allowed: AllowedKinds, user: Option<Seq<char>>)
    ensures
        respond_spec(s, allowed, user).0.next >= s.next,
        respond_spec(s, allowed, user).0.fetch_start == s.fetch_start,
        respond_spec(s, allowed, user).0.candidates == s.candidates,
{
}

} // verus!
