//! The manager as a state machine over plain maps.
//!
//! Each document is in one of three phases: closed (no entry anywhere),
//! opening (a construction is in flight) or open (a session is cached and its
//! receiver is registered). A construction that fails leads back to closed.
//! Closing is no phase of its own: the session and its route leave the
//! registries in the one step that hands the session to the caller to stop,
//! so that no state has one without the other.
//!
//! The operations of the manager are transitions of this machine; what holds
//! of every reachable state is `ManagerState::inv`.

use crate::registry::lookup;
use vstd::prelude::*;

verus! {

/// The phase of one document.
pub enum Phase {
    /// No session and no construction.
    Closed,
    /// A session of this identity is being constructed.
    Opening(u64),
    /// The session of this identity is cached.
    Open(u64),
}

/// The answer to a request to open a document, by the identity it names.
pub enum OpenAnswer {
    /// The document is open: this is its session.
    Cached(u64),
    /// The session of this identity is under construction already.
    Pending(u64),
    /// A construction starts: the session will have this identity.
    Build(u64),
    /// The request fails and nothing changes.
    Refused,
}

/// The answer to a request to close or delete a document.
#[derive(Clone, Copy, Debug, PartialEq, Eq, Structural)]
pub enum CloseStep {
    /// The session was dropped from the registries: stop it.
    Released(u64),
    /// The session of this identity is still under construction. Ask again
    /// when that construction has ended.
    Deferred(u64),
    /// The document was not open: nothing to do.
    Absent,
}

/// One operation of the manager.
pub enum Step {
    /// A request to open the document; the flag says whether the credentials
    /// could be had.
    BeginOpen(Seq<char>, bool),
    /// The end of the construction for the document; the flag says whether
    /// it went well.
    FinishOpen(Seq<char>, bool),
    /// A request to close or delete the document.
    Close(Seq<char>),
    /// The start of the fan-out of connectivity changes.
    Listen,
}

/// What the manager knows at one instant.
pub ghost struct ManagerState {
    /// The cached session of each open document.
    pub sessions: Map<Seq<char>, u64>,
    /// The receiver to which inbound messages of a document are routed,
    /// named by the session it belongs to.
    pub receivers: Map<Seq<char>, u64>,
    /// The constructions in flight, each with the identity that its session
    /// will have.
    pub opening: Map<Seq<char>, u64>,
    /// The identity that the next construction gets.
    pub next_session: u64,
    /// Whether connectivity changes are being fanned out.
    pub listening: bool,
}

impl ManagerState {
    /// The state of a manager that has not opened anything yet.
    pub open spec fn initial() -> ManagerState {
        ManagerState {
            sessions: Map::empty(),
            receivers: Map::empty(),
            opening: Map::empty(),
            next_session: 0,
            listening: false,
        }
    }

    /// The phase of `doc`.
    pub open spec fn phase(self, doc: Seq<char>) -> Phase {
        if self.sessions.contains_key(doc) {
            Phase::Open(self.sessions[doc])
        } else if self.opening.contains_key(doc) {
            Phase::Opening(self.opening[doc])
        } else {
            Phase::Closed
        }
    }

    /// The identity bound to `doc`, cached or under construction.
    pub open spec fn bound(self, doc: Seq<char>) -> Option<u64> {
        match self.phase(doc) {
            Phase::Open(session) => Some(session),
            Phase::Opening(session) => Some(session),
            Phase::Closed => None,
        }
    }

    /// What holds of every state that the manager reaches:
    /// every route leads to the cached session of its document and every
    /// cached session has its route; no document is both open and opening;
    /// every identity in use was handed out before; and no identity is bound
    /// to two documents.
    pub open spec fn inv(self) -> bool {
        &&& self.receivers == self.sessions
        &&& forall|doc: Seq<char>| #[trigger]
            self.opening.contains_key(doc) ==> !self.sessions.contains_key(doc)
        &&& forall|doc: Seq<char>|
            self.sessions.contains_key(doc) ==> #[trigger] self.sessions[doc] < self.next_session
        &&& forall|doc: Seq<char>|
            self.opening.contains_key(doc) ==> #[trigger] self.opening[doc] < self.next_session
        &&& forall|a: Seq<char>, b: Seq<char>|
            (#[trigger] self.bound(a)) is Some && self.bound(a) == (#[trigger] self.bound(b)) ==> a
                == b
    }

    /// Whether an identity is left to hand out.
    pub open spec fn can_allocate(self) -> bool {
        self.next_session < u64::MAX
    }

    /// Whether a request to open `doc` starts a construction: the document is
    /// closed, the credentials were granted and an identity is left.
    pub open spec fn starts_build(self, doc: Seq<char>, granted: bool) -> bool {
        self.phase(doc) is Closed && granted && self.can_allocate()
    }

    /// The answer to a request to open `doc`.
    pub open spec fn open_answer(self, doc: Seq<char>, granted: bool) -> OpenAnswer {
        match self.phase(doc) {
            Phase::Open(session) => OpenAnswer::Cached(session),
            Phase::Opening(session) => OpenAnswer::Pending(session),
            Phase::Closed => if granted && self.can_allocate() {
                OpenAnswer::Build(self.next_session)
            } else {
                OpenAnswer::Refused
            },
        }
    }

    /// The answer to a request to close or delete `doc`.
    pub open spec fn close_answer(self, doc: Seq<char>) -> CloseStep {
        match self.phase(doc) {
            Phase::Open(session) => CloseStep::Released(session),
            Phase::Opening(session) => CloseStep::Deferred(session),
            Phase::Closed => CloseStep::Absent,
        }
    }

    /// The state after a request to open `doc`, where `granted` says whether
    /// the credentials could be had.
    pub open spec fn begin_open(self, doc: Seq<char>, granted: bool) -> ManagerState {
        if self.starts_build(doc, granted) {
            ManagerState {
                opening: self.opening.insert(doc, self.next_session),
                next_session: (self.next_session + 1) as u64,
                ..self
            }
        } else {
            self
        }
    }

    /// The state after the construction for `doc` has ended, well (`built`) or
    /// not. Without a construction in flight nothing changes.
    pub open spec fn finish_open(self, doc: Seq<char>, built: bool) -> ManagerState {
        if !(self.phase(doc) is Opening) {
            self
        } else if built {
            ManagerState {
                sessions: self.sessions.insert(doc, self.opening[doc]),
                receivers: self.receivers.insert(doc, self.opening[doc]),
                opening: self.opening.remove(doc),
                ..self
            }
        } else {
            ManagerState { opening: self.opening.remove(doc), ..self }
        }
    }

    /// The state after `doc` was closed or deleted: its session and its route
    /// are gone together. A construction in flight is left alone.
    pub open spec fn close(self, doc: Seq<char>) -> ManagerState {
        ManagerState {
            sessions: self.sessions.remove(doc),
            receivers: self.receivers.remove(doc),
            ..self
        }
    }

    /// The state after the fan-out of connectivity changes was started.
    pub open spec fn listen(self) -> ManagerState {
        ManagerState { listening: true, ..self }
    }

    /// The state after one operation.
    pub open spec fn apply(self, step: Step) -> ManagerState {
        match step {
            Step::BeginOpen(doc, granted) => self.begin_open(doc, granted),
            Step::FinishOpen(doc, built) => self.finish_open(doc, built),
            Step::Close(doc) => self.close(doc),
            Step::Listen => self.listen(),
        }
    }

    /// The state after the operations of `steps`, first to last.
    pub open spec fn run(self, steps: Seq<Step>) -> ManagerState
        decreases steps.len(),
    {
        if steps.len() == 0 {
            self
        } else {
            self.run(steps.drop_last()).apply(steps.last())
        }
    }

    /// The receiver to which a message for `object_id` goes, if any.
    pub open spec fn route(self, object_id: Seq<char>) -> Option<u64> {
        lookup(self.receivers, object_id)
    }

    /// Whether `session` receives a connectivity change published now.
    pub open spec fn hears(self, session: u64) -> bool {
        self.listening && exists|doc: Seq<char>|
            self.receivers.contains_key(doc) && #[trigger] self.receivers[doc] == session
    }
}

/// The initial state satisfies the invariant.
pub proof fn lemma_initial_inv()
    ensures
        ManagerState::initial().inv(),
{
}

/// A request to open keeps the invariant.
pub proof fn lemma_begin_open_inv(m: ManagerState, doc: Seq<char>, granted: bool)
    requires
        m.inv(),
    ensures
        m.begin_open(doc, granted).inv(),
{
    let n = m.begin_open(doc, granted);
    if m.starts_build(doc, granted) {
        assert forall|a: Seq<char>, b: Seq<char>|
            (#[trigger] n.bound(a)) is Some && n.bound(a) == (#[trigger] n.bound(b)) implies a
            == b by {
            if a != doc && b != doc {
                assert(n.bound(a) == m.bound(a));
                assert(n.bound(b) == m.bound(b));
            } else if a != doc {
                assert(n.bound(a) == m.bound(a));
            } else if b != doc {
                assert(n.bound(b) == m.bound(b));
            }
        }
    }
}

/// The end of a construction keeps the invariant.
pub proof fn lemma_finish_open_inv(m: ManagerState, doc: Seq<char>, built: bool)
    requires
        m.inv(),
    ensures
        m.finish_open(doc, built).inv(),
{
    let n = m.finish_open(doc, built);
    if m.phase(doc) is Opening {
        assert forall|a: Seq<char>, b: Seq<char>|
            (#[trigger] n.bound(a)) is Some && n.bound(a) == (#[trigger] n.bound(b)) implies a
            == b by {
            if a != doc {
                assert(n.bound(a) == m.bound(a));
            }
            if b != doc {
                assert(n.bound(b) == m.bound(b));
            }
            if built {
                assert(n.bound(doc) == m.bound(doc));
            }
        }
    }
}

/// Closing keeps the invariant.
pub proof fn lemma_close_inv(m: ManagerState, doc: Seq<char>)
    requires
        m.inv(),
    ensures
        m.close(doc).inv(),
{
    let n = m.close(doc);
    assert forall|a: Seq<char>, b: Seq<char>|
        (#[trigger] n.bound(a)) is Some && n.bound(a) == (#[trigger] n.bound(b)) implies a
        == b by {
        if a != doc {
            assert(n.bound(a) == m.bound(a));
        }
        if b != doc {
            assert(n.bound(b) == m.bound(b));
        }
        if m.opening.contains_key(doc) {
            assert(n.bound(doc) == m.bound(doc));
        }
    }
}

/// Starting the fan-out keeps the invariant.
pub proof fn lemma_listen_inv(m: ManagerState)
    requires
        m.inv(),
    ensures
        m.listen().inv(),
{
    let n = m.listen();
    assert forall|a: Seq<char>, b: Seq<char>|
        (#[trigger] n.bound(a)) is Some && n.bound(a) == (#[trigger] n.bound(b)) implies a
        == b by {
        assert(n.bound(a) == m.bound(a));
        assert(n.bound(b) == m.bound(b));
    }
}

/// Every operation keeps the invariant.
pub proof fn lemma_apply_inv(m: ManagerState, step: Step)
    requires
        m.inv(),
    ensures
        m.apply(step).inv(),
{
    match step {
        Step::BeginOpen(doc, granted) => lemma_begin_open_inv(m, doc, granted),
        Step::FinishOpen(doc, built) => lemma_finish_open_inv(m, doc, built),
        Step::Close(doc) => lemma_close_inv(m, doc),
        Step::Listen => lemma_listen_inv(m),
    }
}

/// Every run of operations keeps the invariant.
pub proof fn lemma_run_inv(m: ManagerState, steps: Seq<Step>)
    requires
        m.inv(),
    ensures
        m.run(steps).inv(),
    decreases steps.len(),
{
    if steps.len() > 0 {
        lemma_run_inv(m, steps.drop_last());
        lemma_apply_inv(m.run(steps.drop_last()), steps.last());
    }
}

} // verus!
