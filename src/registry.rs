//! The callback service: agents that this process publishes on the bus for
//! the daemon to call back into.
//!
//! Registering an agent takes two ordered steps: the daemon is told the
//! agent's path, then the local handler is published at that path. The
//! registry decides each step and records its outcome; the caller performs
//! the bus work and reports back. Inbound calls are routed through the
//! registry, which serves them only at paths whose registration is active.

use crate::agent::CancellationReason;
use crate::object_path::{is_object_path, is_path_name_char, InvalidPath, ObjectPath};
use crate::station::signal_level_agent::{
    is_descending, signal_level_range, sort_descending, spec_level_range, SignalLevelRange,
};
use vstd::prelude::*;

verus! {

/// The two agent interfaces that the daemon calls back into.
#[derive(Debug, Clone, Copy, PartialEq, Eq, Structural)]
pub enum AgentKind {
    /// Answers credential requests for networks.
    Credential,
    /// Hears about changes of a station's signal level.
    SignalLevel,
}

/// Where a registration stands.
#[derive(Debug, Clone, Copy, PartialEq, Eq, Structural)]
pub enum RegistrationState {
    /// The daemon has been asked to register the path.
    Requested,
    /// The daemon accepted the path; the handler is being published.
    Publishing,
    /// Both steps succeeded: inbound calls are served.
    Active,
    /// The daemon accepted the path but publishing failed. The daemon keeps
    /// the registration until it is unregistered.
    PublishFailed,
    /// The daemon refused the path.
    Refused,
    /// The owner unregistered the agent. A handler that was published stays
    /// with the connection.
    Unregistered,
    /// The daemon released the agent.
    Released,
}

/// A registration as the contracts see it.
pub struct RegistrationView {
    pub path: Seq<char>,
    pub kind: AgentKind,
    pub levels: Seq<i16>,
    pub state: RegistrationState,
}

/// One exported agent: its unique path, its interface, the thresholds it
/// was registered with (empty for a credential agent), and its state.
#[derive(Debug)]
pub struct Registration {
    path: ObjectPath,
    kind: AgentKind,
    levels: Vec<i16>,
    state: RegistrationState,
}

impl View for Registration {
    type V = RegistrationView;

    closed spec fn view(&self) -> RegistrationView {
        RegistrationView {
            path: self.path@,
            kind: self.kind,
            levels: self.levels@,
            state: self.state,
        }
    }
}

/// The agents registered on one connection.
#[derive(Debug)]
pub struct AgentRegistry {
    regs: Vec<Registration>,
}

impl View for AgentRegistry {
    type V = Seq<RegistrationView>;

    closed spec fn view(&self) -> Seq<RegistrationView> {
        self.regs@.map_values(|r: Registration| r@)
    }
}

/// A step of bus work that the registry asks its caller to perform.
#[derive(Debug)]
pub enum AgentAction {
    /// Tell the daemon the agent's path; a signal-level agent also sends its
    /// thresholds.
    RegisterRemote { path: ObjectPath, kind: AgentKind, levels: Vec<i16> },
    /// Publish the agent's handler at its path.
    Publish { path: ObjectPath, kind: AgentKind },
    /// Tell the daemon to forget the agent's path.
    UnregisterRemote { path: ObjectPath, kind: AgentKind },
}

/// Why a registration could not begin.
#[derive(Debug, Clone, Copy, PartialEq, Eq, Structural)]
pub enum RegistrationError {
    /// The identifier does not make a well-formed object path.
    InvalidPath,
    /// An agent is already registered at the path.
    PathInUse,
}

/// A call that the daemon makes on an exported agent.
#[derive(Debug)]
pub enum AgentCall {
    Release,
    RequestPassphrase(ObjectPath),
    RequestPrivateKeyPassphrase(ObjectPath),
    RequestUserNameAndPassword(ObjectPath),
    RequestUserPassword(ObjectPath, Option<String>),
    Cancel(String),
    Changed(ObjectPath, u8),
}

/// What to do with an inbound call.
#[derive(Debug)]
pub enum Dispatch {
    /// No active agent at the path: reply with an unknown-object fault.
    UnknownObject,
    /// The agent's interface has no such method: reply with an
    /// unknown-method fault.
    UnknownMethod,
    /// An argument is not understood: reply with an invalid-arguments fault.
    InvalidArgs,
    /// Tell the handler that the daemon released it.
    Release,
    /// Resolve the network and ask the handler for a passphrase.
    RequestPassphrase(ObjectPath),
    /// Resolve the network and ask the handler for a private key's passphrase.
    RequestPrivateKeyPassphrase(ObjectPath),
    /// Resolve the network and ask the handler for a user name and password.
    RequestUserNameAndPassword(ObjectPath),
    /// Resolve the network and ask the handler for a password, given the
    /// user name if the daemon sent one.
    RequestUserPassword(ObjectPath, Option<String>),
    /// Tell the handler that the daemon cancelled its request.
    Cancel(CancellationReason),
    /// Resolve the station and tell the handler the range of its new level.
    Changed(ObjectPath, SignalLevelRange),
}

/// No two registrations share a path.
pub open spec fn paths_unique(regs: Seq<RegistrationView>) -> bool {
    forall|i: int, j: int| 0 <= i < j < regs.len() ==> regs[i].path != regs[j].path
}

pub open spec fn has_path(regs: Seq<RegistrationView>, path: Seq<char>) -> bool {
    exists|i: int| 0 <= i < regs.len() && regs[i].path == path
}

/// The position of the registration at `path`.
pub open spec fn index_of(regs: Seq<RegistrationView>, path: Seq<char>) -> int {
    choose|i: int| 0 <= i < regs.len() && regs[i].path == path
}

pub open spec fn state_of(regs: Seq<RegistrationView>, path: Seq<char>) -> Option<RegistrationState> {
    if has_path(regs, path) {
        Some(regs[index_of(regs, path)].state)
    } else {
        None
    }
}

/// The registrations with the one at `path` moved to state `st`.
pub open spec fn with_state(regs: Seq<RegistrationView>, path: Seq<char>, st: RegistrationState) -> Seq<RegistrationView> {
    if has_path(regs, path) {
        let i = index_of(regs, path);
        regs.update(i, RegistrationView { path: regs[i].path, kind: regs[i].kind, levels: regs[i].levels, state: st })
    } else {
        regs
    }
}

/// The path under which an agent of `kind` with identifier `id` is published.
pub open spec fn agent_path(kind: AgentKind, id: Seq<char>) -> Seq<char> {
    match kind {
        AgentKind::Credential => "/iwdrs/agent/"@ + id,
        AgentKind::SignalLevel => "/iwdrs/signal_level_agent/"@ + id,
    }
}

/// The registrations after a registration at `path` has begun.
pub open spec fn begun(regs: Seq<RegistrationView>, path: Seq<char>, kind: AgentKind, levels: Seq<i16>) -> Seq<RegistrationView> {
    regs.push(RegistrationView { path, kind, levels, state: RegistrationState::Requested })
}

/// The registrations after the daemon answered the request for `path`.
pub open spec fn after_remote_answer(regs: Seq<RegistrationView>, path: Seq<char>, accepted: bool) -> Seq<RegistrationView> {
    if state_of(regs, path) == Some(RegistrationState::Requested) {
        with_state(
            regs,
            path,
            if accepted {
                RegistrationState::Publishing
            } else {
                RegistrationState::Refused
            },
        )
    } else {
        regs
    }
}

/// The registrations after publishing the handler at `path` ended.
pub open spec fn after_publish(regs: Seq<RegistrationView>, path: Seq<char>, published: bool) -> Seq<RegistrationView> {
    if state_of(regs, path) == Some(RegistrationState::Publishing) {
        with_state(
            regs,
            path,
            if published {
                RegistrationState::Active
            } else {
                RegistrationState::PublishFailed
            },
        )
    } else {
        regs
    }
}

/// The daemon holds the registration, so that unregistering means something.
pub open spec fn can_unregister(st: RegistrationState) -> bool {
    st == RegistrationState::Publishing || st == RegistrationState::Active || st
        == RegistrationState::PublishFailed
}

/// The registrations after the owner unregistered the agent at `path`.
pub open spec fn after_unregister(regs: Seq<RegistrationView>, path: Seq<char>) -> Seq<RegistrationView> {
    match state_of(regs, path) {
        Some(st) => if can_unregister(st) {
            with_state(regs, path, RegistrationState::Unregistered)
        } else {
            regs
        },
        None => regs,
    }
}

/// An inbound call at `path` reaches a handler.
pub open spec fn is_dispatchable(regs: Seq<RegistrationView>, path: Seq<char>) -> bool {
    state_of(regs, path) == Some(RegistrationState::Active)
}

/// The answer to `call` on the active registration `reg`.
pub open spec fn dispatch_of(reg: RegistrationView, call: AgentCall, r: Dispatch) -> bool {
    match call {
        AgentCall::Release => r is Release,
        AgentCall::RequestPassphrase(n) => if reg.kind == AgentKind::Credential {
            r matches Dispatch::RequestPassphrase(m) && m@ == n@
        } else {
            r is UnknownMethod
        },
        AgentCall::RequestPrivateKeyPassphrase(n) => if reg.kind == AgentKind::Credential {
            r matches Dispatch::RequestPrivateKeyPassphrase(m) && m@ == n@
        } else {
            r is UnknownMethod
        },
        AgentCall::RequestUserNameAndPassword(n) => if reg.kind == AgentKind::Credential {
            r matches Dispatch::RequestUserNameAndPassword(m) && m@ == n@
        } else {
            r is UnknownMethod
        },
        AgentCall::RequestUserPassword(n, u) => if reg.kind == AgentKind::Credential {
            r matches Dispatch::RequestUserPassword(m, v) && m@ == n@ && v == u
        } else {
            r is UnknownMethod
        },
        AgentCall::Cancel(s) => if reg.kind == AgentKind::Credential {
            match CancellationReason::spec_from_wire(s@) {
                Some(c) => r == Dispatch::Cancel(c),
                None => r is InvalidArgs,
            }
        } else {
            r is UnknownMethod
        },
        AgentCall::Changed(st, idx) => if reg.kind == AgentKind::SignalLevel {
            r matches Dispatch::Changed(p, range) && p@ == st@ && range == spec_level_range(
                reg.levels,
                idx as int,
            )
        } else {
            r is UnknownMethod
        },
    }
}

proof fn lemma_index(regs: Seq<RegistrationView>, i: int, path: Seq<char>)
    requires
        paths_unique(regs),
        0 <= i < regs.len(),
        regs[i].path == path,
    ensures
        has_path(regs, path),
        index_of(regs, path) == i,
{
    assert(has_path(regs, path));
    let k = index_of(regs, path);
    if k < i {
        assert(regs[k].path != regs[i].path);
    } else if k > i {
        assert(regs[i].path != regs[k].path);
    }
}

proof fn lemma_with_state(regs: Seq<RegistrationView>, path: Seq<char>, st: RegistrationState)
    requires
        paths_unique(regs),
        has_path(regs, path),
    ensures
        paths_unique(with_state(regs, path, st)),
        with_state(regs, path, st).len() == regs.len(),
        has_path(with_state(regs, path, st), path),
        index_of(with_state(regs, path, st), path) == index_of(regs, path),
        state_of(with_state(regs, path, st), path) == Some(st),
        with_state(regs, path, st)[index_of(regs, path)].kind == regs[index_of(regs, path)].kind,
        with_state(regs, path, st)[index_of(regs, path)].levels == regs[index_of(regs, path)].levels,
{
    let i = index_of(regs, path);
    let s = with_state(regs, path, st);
    assert forall|a: int, b: int| 0 <= a < b < s.len() implies s[a].path != s[b].path by {
        assert(s[a].path == regs[a].path);
        assert(s[b].path == regs[b].path);
    }
    lemma_index(s, i, path);
}

proof fn lemma_begun(regs: Seq<RegistrationView>, path: Seq<char>, kind: AgentKind, levels: Seq<i16>)
    requires
        paths_unique(regs),
        !has_path(regs, path),
    ensures
        paths_unique(begun(regs, path, kind, levels)),
        state_of(begun(regs, path, kind, levels), path) == Some(RegistrationState::Requested),
{
    let s = begun(regs, path, kind, levels);
    assert forall|a: int, b: int| 0 <= a < b < s.len() implies s[a].path != s[b].path by {
        if b == regs.len() {
            assert(regs[a].path != path);
        }
    }
    lemma_index(s, regs.len() as int, path);
}

/// Registering an agent and unregistering it right after leaves no
/// dispatchable agent at its path, so that an inbound call there is answered
/// as an unknown object. The registration is then unregistered, and the
/// other paths stay unique.
pub proof fn lemma_register_then_unregister(
    regs: Seq<RegistrationView>,
    path: Seq<char>,
    kind: AgentKind,
    levels: Seq<i16>,
)
    requires
        paths_unique(regs),
        !has_path(regs, path),
    ensures
        ({
            let s = after_unregister(
                after_publish(after_remote_answer(begun(regs, path, kind, levels), path, true), path, true),
                path,
            );
            &&& !is_dispatchable(s, path)
            &&& state_of(s, path) == Some(RegistrationState::Unregistered)
            &&& paths_unique(s)
        }),
{
    let s0 = begun(regs, path, kind, levels);
    lemma_begun(regs, path, kind, levels);
    let s1 = after_remote_answer(s0, path, true);
    lemma_with_state(s0, path, RegistrationState::Publishing);
    let s2 = after_publish(s1, path, true);
    lemma_with_state(s1, path, RegistrationState::Active);
    lemma_with_state(s2, path, RegistrationState::Unregistered);
}

impl AgentRegistry {
    /// No two registrations share a path.
    pub open spec fn wf(&self) -> bool {
        paths_unique(self@)
    }

    pub fn new() -> (r: AgentRegistry)
        ensures
            r.wf(),
            r@.len() == 0,
    {
        let r = AgentRegistry { regs: Vec::new() };
        proof {
            assert(r@ =~= Seq::<RegistrationView>::empty());
        }
        r
    }

    /// Where a registration is recorded at `path`, if anywhere.
    fn find(&self, path: &str) -> (r: Option<usize>)
        ensures
            match r {
                Some(i) => i < self@.len() && self@[i as int].path == path@,
                None => !has_path(self@, path@),
            },
    {
        let n = self.regs.len();
        let mut i: usize = 0;
        while i < n
            invariant
                n == self.regs@.len(),
                self@.len() == n,
                i <= n,
                forall|j: int| 0 <= j < i ==> self@[j].path != path@,
            decreases n - i,
        {
            if crate::text::str_equal(self.regs[i].path.as_str(), path) {
                return Some(i);
            }
            i = i + 1;
        }
        None
    }

    fn set_state(&mut self, i: usize, st: RegistrationState)
        requires
            i < old(self)@.len(),
        ensures
            final(self)@ == old(self)@.update(
                i as int,
                RegistrationView {
                    path: old(self)@[i as int].path,
                    kind: old(self)@[i as int].kind,
                    levels: old(self)@[i as int].levels,
                    state: st,
                },
            ),
    {
        let ghost before = self.regs@;
        let mut reg = self.regs.remove(i);
        reg.state = st;
        self.regs.insert(i, reg);
        proof {
            assert(self.regs@ =~= before.update(i as int, reg));
            assert(self@ =~= before.map_values(|r: Registration| r@).update(i as int, reg@));
        }
    }

    /// The state of the registration at `path`, if there is one.
    pub fn state(&self, path: &ObjectPath) -> (r: Option<RegistrationState>)
        requires
            self.wf(),
        ensures
            r == state_of(self@, path@),
    {
        match self.find(path.as_str()) {
            Some(i) => {
                proof {
                    lemma_index(self@, i as int, path@);
                }
                Some(self.regs[i].state)
            },
            None => None,
        }
    }

    /// Begins registering an agent of `kind` under identifier `id`: records
    /// the registration, with its thresholds in descending order, and asks
    /// for the daemon to be told its path.
    pub fn begin(&mut self, kind: AgentKind, id: &str, levels: Vec<i16>) -> (r: Result<AgentAction, RegistrationError>)
        requires
            old(self).wf(),
        ensures
            final(self).wf(),
            !is_object_path(agent_path(kind, id@)) ==> r == Err::<AgentAction, RegistrationError>(RegistrationError::InvalidPath),
            is_object_path(agent_path(kind, id@)) && has_path(old(self)@, agent_path(kind, id@))
                ==> r == Err::<AgentAction, RegistrationError>(RegistrationError::PathInUse),
            r is Err ==> final(self)@ == old(self)@,
            is_object_path(agent_path(kind, id@)) && !has_path(old(self)@, agent_path(kind, id@)) ==> (
                r matches Ok(AgentAction::RegisterRemote { path: p, kind: k, levels: l }) && {
                    &&& p@ == agent_path(kind, id@)
                    &&& k == kind
                    &&& is_descending(l@)
                    &&& l@.to_multiset() == levels@.to_multiset()
                    &&& final(self)@ == begun(old(self)@, p@, kind, l@)
                }),
    {
        let mut text = match kind {
            AgentKind::Credential => String::from_str("/iwdrs/agent/"),
            AgentKind::SignalLevel => String::from_str("/iwdrs/signal_level_agent/"),
        };
        text.append(id);
        let path = match ObjectPath::from_string(text) {
            Ok(p) => p,
            Err(InvalidPath) => return Err(RegistrationError::InvalidPath),
        };
        if self.find(path.as_str()).is_some() {
            return Err(RegistrationError::PathInUse);
        }
        let sorted = sort_descending(levels);
        let reg = Registration {
            path: path.duplicate(),
            kind,
            levels: sorted.clone(),
            state: RegistrationState::Requested,
        };
        let ghost before = self@;
        self.regs.push(reg);
        proof {
            assert(self@ =~= before.push(reg@));
            lemma_begun(before, path@, kind, sorted@);
        }
        Ok(AgentAction::RegisterRemote { path, kind, levels: sorted })
    }

    /// Begins registering an agent of `kind` under a fresh random
    /// identifier. Such an identifier always makes a well-formed path; the
    /// registration fails only if an agent already holds it.
    pub fn begin_fresh(&mut self, kind: AgentKind, levels: Vec<i16>) -> (r: Result<AgentAction, RegistrationError>)
        requires
            old(self).wf(),
        ensures
            final(self).wf(),
            r is Err ==> r == Err::<AgentAction, RegistrationError>(RegistrationError::PathInUse)
                && final(self)@ == old(self)@,
            r is Err ==> exists|id: Seq<char>| id.len() == 32 && has_path(old(self)@, agent_path(kind, id)),
            r matches Ok(AgentAction::RegisterRemote { path: p, kind: k, levels: l }) ==> {
                &&& exists|id: Seq<char>| {
                    &&& id.len() == 32
                    &&& forall|i: int| 0 <= i < 32 ==> ('0' <= #[trigger] id[i] <= '9') || ('a' <= id[i] <= 'f')
                    &&& p@ == agent_path(kind, id)
                }
                &&& k == kind
                &&& is_descending(l@)
                &&& l@.to_multiset() == levels@.to_multiset()
                &&& !has_path(old(self)@, p@)
                &&& final(self)@ == begun(old(self)@, p@, kind, l@)
            },
            r is Ok ==> r matches Ok(AgentAction::RegisterRemote { .. }),
    {
        let id = fresh_agent_id();
        proof {
            assert forall|i: int| 0 <= i < id@.len() implies is_path_name_char(#[trigger] id@[i]) by {
                assert(('0' <= id@[i] <= '9') || ('a' <= id@[i] <= 'f'));
            }
            lemma_agent_path_valid(kind, id@);
        }
        self.begin(kind, id.as_str(), levels)
    }

    /// Records the daemon's answer to the registration at `path`. When the
    /// daemon accepted, the handler is to be published next.
    pub fn remote_answer(&mut self, path: &ObjectPath, accepted: bool) -> (r: Option<AgentAction>)
        requires
            old(self).wf(),
        ensures
            final(self).wf(),
            final(self)@ == after_remote_answer(old(self)@, path@, accepted),
            r is Some <==> accepted && state_of(old(self)@, path@) == Some(RegistrationState::Requested),
            r matches Some(a) ==> (a matches AgentAction::Publish { path: p, kind: k } && p@ == path@
                && k == old(self)@[index_of(old(self)@, path@)].kind),
    {
        match self.find(path.as_str()) {
            Some(i) => {
                proof {
                    lemma_index(self@, i as int, path@);
                }
                if self.regs[i].state == RegistrationState::Requested {
                    let kind = self.regs[i].kind;
                    proof {
                        lemma_with_state(self@, path@, RegistrationState::Publishing);
                        lemma_with_state(self@, path@, RegistrationState::Refused);
                    }
                    if accepted {
                        self.set_state(i, RegistrationState::Publishing);
                        Some(AgentAction::Publish { path: path.duplicate(), kind })
                    } else {
                        self.set_state(i, RegistrationState::Refused);
                        None
                    }
                } else {
                    None
                }
            },
            None => None,
        }
    }

    /// Records whether publishing the handler at `path` succeeded. A failure
    /// leaves the daemon's registration in place.
    pub fn publish_result(&mut self, path: &ObjectPath, published: bool)
        requires
            old(self).wf(),
        ensures
            final(self).wf(),
            final(self)@ == after_publish(old(self)@, path@, published),
    {
        match self.find(path.as_str()) {
            Some(i) => {
                proof {
                    lemma_index(self@, i as int, path@);
                }
                if self.regs[i].state == RegistrationState::Publishing {
                    proof {
                        lemma_with_state(self@, path@, RegistrationState::Active);
                        lemma_with_state(self@, path@, RegistrationState::PublishFailed);
                    }
                    if published {
                        self.set_state(i, RegistrationState::Active);
                    } else {
                        self.set_state(i, RegistrationState::PublishFailed);
                    }
                }
            },
            None => {},
        }
    }

    /// Unregisters the agent at `path`, where the daemon holds it: the
    /// daemon is to be told to forget the path. The published handler is not
    /// withdrawn; it lives as long as the connection.
    pub fn unregister(&mut self, path: &ObjectPath) -> (r: Option<AgentAction>)
        requires
            old(self).wf(),
        ensures
            final(self).wf(),
            final(self)@ == after_unregister(old(self)@, path@),
            r is Some <==> (state_of(old(self)@, path@) matches Some(st) && can_unregister(st)),
            r matches Some(a) ==> (a matches AgentAction::UnregisterRemote { path: p, kind: k } && p@
                == path@ && k == old(self)@[index_of(old(self)@, path@)].kind),
    {
        match self.find(path.as_str()) {
            Some(i) => {
                proof {
                    lemma_index(self@, i as int, path@);
                }
                let st = self.regs[i].state;
                if st == RegistrationState::Publishing || st == RegistrationState::Active || st
                    == RegistrationState::PublishFailed {
                    let kind = self.regs[i].kind;
                    proof {
                        lemma_with_state(self@, path@, RegistrationState::Unregistered);
                    }
                    self.set_state(i, RegistrationState::Unregistered);
                    Some(AgentAction::UnregisterRemote { path: path.duplicate(), kind })
                } else {
                    None
                }
            },
            None => None,
        }
    }

    /// Routes an inbound call made at `path`. Only an active registration
    /// serves calls; a release ends it.
    pub fn dispatch(&mut self, path: &ObjectPath, call: AgentCall) -> (r: Dispatch)
        requires
            old(self).wf(),
        ensures
            final(self).wf(),
            !is_dispatchable(old(self)@, path@) ==> r is UnknownObject && final(self)@ == old(self)@,
            is_dispatchable(old(self)@, path@) ==> {
                &&& dispatch_of(old(self)@[index_of(old(self)@, path@)], call, r)
                &&& final(self)@ == if call is Release {
                    with_state(old(self)@, path@, RegistrationState::Released)
                } else {
                    old(self)@
                }
            },
    {
        let i = match self.find(path.as_str()) {
            Some(i) => i,
            None => return Dispatch::UnknownObject,
        };
        proof {
            lemma_index(self@, i as int, path@);
        }
        if self.regs[i].state != RegistrationState::Active {
            return Dispatch::UnknownObject;
        }
        let kind = self.regs[i].kind;
        match call {
            AgentCall::Release => {
                proof {
                    lemma_with_state(self@, path@, RegistrationState::Released);
                }
                self.set_state(i, RegistrationState::Released);
                Dispatch::Release
            },
            AgentCall::RequestPassphrase(n) => {
                if kind == AgentKind::Credential {
                    Dispatch::RequestPassphrase(n)
                } else {
                    Dispatch::UnknownMethod
                }
            },
            AgentCall::RequestPrivateKeyPassphrase(n) => {
                if kind == AgentKind::Credential {
                    Dispatch::RequestPrivateKeyPassphrase(n)
                } else {
                    Dispatch::UnknownMethod
                }
            },
            AgentCall::RequestUserNameAndPassword(n) => {
                if kind == AgentKind::Credential {
                    Dispatch::RequestUserNameAndPassword(n)
                } else {
                    Dispatch::UnknownMethod
                }
            },
            AgentCall::RequestUserPassword(n, u) => {
                if kind == AgentKind::Credential {
                    Dispatch::RequestUserPassword(n, u)
                } else {
                    Dispatch::UnknownMethod
                }
            },
            AgentCall::Cancel(s) => {
                if kind == AgentKind::Credential {
                    match CancellationReason::from_wire(s.as_str()) {
                        Some(c) => Dispatch::Cancel(c),
                        None => Dispatch::InvalidArgs,
                    }
                } else {
                    Dispatch::UnknownMethod
                }
            },
            AgentCall::Changed(station, idx) => {
                if kind == AgentKind::SignalLevel {
                    let range = signal_level_range(self.regs[i].levels.as_slice(), idx);
                    Dispatch::Changed(station, range)
                } else {
                    Dispatch::UnknownMethod
                }
            },
        }
    }
}

/// Relies on uuid's `Uuid::new_v4` and its simple format: a fresh random
/// identifier written as 32 lowercase hexadecimal digits.
#[verifier::external_body]
fn fresh_agent_id() -> (r: String)
    ensures
        r@.len() == 32,
        forall|i: int| 0 <= i < 32 ==> ('0' <= #[trigger] r@[i] <= '9') || ('a' <= r@[i] <= 'f'),
{
    uuid::Uuid::new_v4().as_simple().to_string()
}

/// An identifier of path characters makes a well-formed agent path.
pub proof fn lemma_agent_path_valid(kind: AgentKind, id: Seq<char>)
    requires
        id.len() >= 1,
        forall|i: int| 0 <= i < id.len() ==> is_path_name_char(#[trigger] id[i]),
    ensures
        is_object_path(agent_path(kind, id)),
{
    reveal_strlit("/iwdrs/agent/");
    reveal_strlit("/iwdrs/signal_level_agent/");
    let p = agent_path(kind, id);
    let prefix = match kind {
        AgentKind::Credential => "/iwdrs/agent/"@,
        AgentKind::SignalLevel => "/iwdrs/signal_level_agent/"@,
    };
    assert(p == prefix + id);
    assert forall|i: int| 0 <= i < p.len() implies is_path_name_char(#[trigger] p[i]) || p[i] == '/' by {
        if i >= prefix.len() {
            assert(p[i] == id[i - prefix.len()]);
        }
    }
    assert forall|i: int| 1 <= i < p.len() && #[trigger] p[i] == '/' implies p[i - 1] != '/' by {
        if i >= prefix.len() {
            assert(p[i] == id[i - prefix.len()]);
        }
    }
    assert(p[p.len() - 1] == id[id.len() - 1]);
}

} // verus!
