//! Supervision of the engine child process on the server side.
//!
//! The server accepts connections one at a time. Each accepted connection
//! spawns one fresh child process whose standard streams become the local
//! endpoint; when the relay session ends — for any reason — the child is
//! forcibly killed and waited for before the next connection is served, so
//! no process ever leaks.

use vstd::prelude::*;

use crate::relay::RelaySession;

verus! {

/// The abstract state of the server's child supervision.
#[verifier::ext_equal]
pub struct SupervisorView {
    /// The identifier the next spawned child will get; identifiers are
    /// handed out in increasing order, so they are never reused.
    pub next_id: u64,
    /// The child of the session being served, if one is live.
    pub current: Option<u64>,
    /// The children of completed sessions, in session order, each killed
    /// and reaped when its session ended.
    pub reaped: Seq<u64>,
}

/// Internal consistency: identifiers already handed out are below
/// `next_id`, reaped children are listed in spawn order, and the live
/// child, if any, was spawned after every reaped one.
pub open spec fn sup_wf(s: SupervisorView) -> bool {
    &&& (forall|i: int| 0 <= i < s.reaped.len() ==> s.reaped[i] < s.next_id)
    &&& (forall|i: int, j: int| 0 <= i < j < s.reaped.len() ==> s.reaped[i] < s.reaped[j])
    &&& match s.current {
        Some(id) => id < s.next_id && (forall|i: int| 0 <= i < s.reaped.len() ==> s.reaped[i] < id),
        None => true,
    }
}

/// A new session may begin: the previous session's child has been reaped
/// (or none ever ran) and an identifier is still available.
pub open spec fn spawn_enabled(s: SupervisorView) -> bool {
    s.current is None && s.next_id < u64::MAX
}

/// Spawning hands the fresh child the next identifier.
pub open spec fn spawn_step(s: SupervisorView) -> (SupervisorView, u64) {
    (
        SupervisorView {
            next_id: (s.next_id + 1) as u64,
            current: Some(s.next_id),
            reaped: s.reaped,
        },
        s.next_id,
    )
}

/// A session is being served.
pub open spec fn reap_enabled(s: SupervisorView) -> bool {
    s.current is Some
}

/// Ending a session kills and waits for its child: the child moves to the
/// reaped list and no child is live afterwards.
pub open spec fn reap_step(s: SupervisorView) -> SupervisorView {
    SupervisorView { next_id: s.next_id, current: None, reaped: s.reaped.push(s.current->0) }
}

/// Child process cleanup: after a relay session ends — for any reason —
/// its child is no longer running; it is the newest entry of the reaped
/// list, and the supervisor is ready for the next connection.
pub proof fn lemma_child_cleanup(s: SupervisorView)
    requires
        sup_wf(s),
        reap_enabled(s),
    ensures
        reap_step(s).current is None,
        reap_step(s).reaped.last() == s.current->0,
        sup_wf(reap_step(s)),
{
}

/// Sequential server sessions: while a session's child is live no second
/// child can be spawned; the first child is reaped when its session ends;
/// only then can a second session begin, and its child is a fresh process,
/// distinct from the first.
pub proof fn lemma_sequential_sessions(s: SupervisorView)
    requires
        sup_wf(s),
        spawn_enabled(s),
        s.next_id + 1 < u64::MAX,
    ensures
        ({
            let (s1, first) = spawn_step(s);
            let s2 = reap_step(s1);
            let (s3, second) = spawn_step(s2);
            &&& !spawn_enabled(s1)
            &&& s2.reaped.last() == first && s2.current is None
            &&& spawn_enabled(s2)
            &&& second != first
            &&& sup_wf(s1) && sup_wf(s2) && sup_wf(s3)
        }),
{
    let (s1, first) = spawn_step(s);
    let s2 = reap_step(s1);
    assert(sup_wf(s2));
}

/// The verified supervision state the server front end drives: one call
/// when a connection's child is spawned, one when its session has ended and
/// the child was killed and waited for.
pub struct ServerSupervisor {
    next_id: u64,
    current: Option<u64>,
    reaped: Ghost<Seq<u64>>,
}

impl View for ServerSupervisor {
    type V = SupervisorView;

    closed spec fn view(&self) -> SupervisorView {
        SupervisorView { next_id: self.next_id, current: self.current, reaped: self.reaped@ }
    }
}

impl ServerSupervisor {
    /// A server that has not served any session yet.
    pub fn new() -> (s: Self)
        ensures
            s@ == (SupervisorView { next_id: 0, current: None, reaped: Seq::empty() }),
            sup_wf(s@),
    {
        let s = ServerSupervisor { next_id: 0, current: None, reaped: Ghost(Seq::empty()) };
        proof {
            assert(s@ =~~= (SupervisorView { next_id: 0, current: None, reaped: Seq::empty() }));
        }
        s
    }

    /// A connection was accepted and its engine child spawned with piped
    /// standard input and output (standard error discarded). Returns the
    /// fresh child's identifier.
    pub fn child_spawned(&mut self) -> (id: u64)
        requires
            sup_wf(old(self)@),
            spawn_enabled(old(self)@),
        ensures
            (final(self)@, id) == spawn_step(old(self)@),
            sup_wf(final(self)@),
    {
        let ghost pre = self@;
        let id = self.next_id;
        self.next_id = self.next_id + 1;
        self.current = Some(id);
        proof {
            assert(self@ =~~= spawn_step(pre).0);
        }
        id
    }

    /// The identifier of the live child, if a session is being served.
    pub fn live_child(&self) -> (r: Option<u64>)
        ensures
            r == self@.current,
    {
        self.current
    }

    /// The relay session ended and the child was killed and waited for.
    /// The session must have both pumps joined before the child is reaped.
    pub fn child_reaped(&mut self, session: &RelaySession)
        requires
            sup_wf(old(self)@),
            reap_enabled(old(self)@),
            session@.outbound_done && session@.inbound_done,
        ensures
            final(self)@ == reap_step(old(self)@),
            final(self)@.current is None,
            sup_wf(final(self)@),
    {
        let ghost pre = self@;
        let ghost id = self.current->0;
        self.reaped = Ghost(self.reaped@.push(id));
        self.current = None;
        proof {
            assert(self@ =~~= reap_step(pre));
        }
    }
}

} // verus!
