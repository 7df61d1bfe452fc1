//! What follows from the transitions of the manager, stated over runs of
//! operations and proved from `ManagerState::inv`.

use crate::model::lemma_begin_open_inv;
use crate::model::lemma_close_inv;
use crate::model::lemma_finish_open_inv;
use crate::model::lemma_run_inv;
use crate::model::ManagerState;
use crate::model::OpenAnswer;
use crate::model::Phase;
use crate::model::Step;
use vstd::prelude::*;

verus! {

/// The document that an operation is about, if it is about one.
pub open spec fn subject(step: Step) -> Option<Seq<char>> {
    match step {
        Step::BeginOpen(doc, _) => Some(doc),
        Step::FinishOpen(doc, _) => Some(doc),
        Step::Close(doc) => Some(doc),
        Step::Listen => None,
    }
}

/// Whether no operation of `steps` is `step`.
pub open spec fn without(steps: Seq<Step>, step: Step) -> bool {
    forall|i: int| 0 <= i < steps.len() ==> steps[i] != step
}

/// Whether `session` was handed out and is bound to no document any more.
pub open spec fn retired(m: ManagerState, session: u64) -> bool {
    session < m.next_session && forall|doc: Seq<char>| m.bound(doc) != Some(session)
}

/// An operation on one document leaves the phase of every other document as
/// it was.
pub proof fn law_documents_are_independent(m: ManagerState, doc: Seq<char>, step: Step)
    requires
        subject(step) != Some(doc),
    ensures
        m.apply(step).phase(doc) == m.phase(doc),
{
}

/// An open document keeps its session through every run of operations that
/// does not close it, and answers every request to open with that session.
pub proof fn law_open_session_is_kept(
    m: ManagerState,
    doc: Seq<char>,
    session: u64,
    steps: Seq<Step>,
    granted: bool,
)
    requires
        m.inv(),
        m.phase(doc) == Phase::Open(session),
        without(steps, Step::Close(doc)),
    ensures
        m.run(steps).phase(doc) == Phase::Open(session),
        m.run(steps).open_answer(doc, granted) == OpenAnswer::Cached(session),
    decreases steps.len(),
{
    if steps.len() > 0 {
        let before = steps.drop_last();
        assert forall|i: int| 0 <= i < before.len() implies before[i] != Step::Close(doc) by {
            assert(before[i] == steps[i]);
        }
        law_open_session_is_kept(m, doc, session, before, granted);
        lemma_run_inv(m, before);
        assert(steps.last() == steps[steps.len() - 1]);
    }
}

/// Two requests to open a document with no close of it in between name the
/// same session: a cached session is found again after any run of other
/// operations; a construction that was started is not started a second time;
/// and once it has ended well its session is the one that later requests
/// find.
pub proof fn law_open_twice_same_session(
    m: ManagerState,
    doc: Seq<char>,
    granted: bool,
    steps: Seq<Step>,
    again: bool,
)
    requires
        m.inv(),
        without(steps, Step::Close(doc)),
    ensures
        m.open_answer(doc, granted) matches OpenAnswer::Cached(session) ==> m.begin_open(
            doc,
            granted,
        ).run(steps).open_answer(doc, again) == OpenAnswer::Cached(session),
        m.open_answer(doc, granted) matches OpenAnswer::Build(session) ==> m.begin_open(
            doc,
            granted,
        ).open_answer(doc, again) == OpenAnswer::Pending(session),
        m.open_answer(doc, granted) matches OpenAnswer::Build(session) ==> m.begin_open(
            doc,
            granted,
        ).finish_open(doc, true).run(steps).open_answer(doc, again) == OpenAnswer::Cached(
            session,
        ),
{
    let started = m.begin_open(doc, granted);
    lemma_begin_open_inv(m, doc, granted);
    match m.open_answer(doc, granted) {
        OpenAnswer::Cached(session) => {
            law_open_session_is_kept(started, doc, session, steps, again);
        },
        OpenAnswer::Build(session) => {
            let built = started.finish_open(doc, true);
            lemma_finish_open_inv(started, doc, true);
            law_open_session_is_kept(built, doc, session, steps, again);
        },
        _ => {},
    }
}

/// A construction that fails leaves no trace in the registries: the sessions,
/// the routes and the constructions in flight are what they were before the
/// request, the document is closed, and the next request to open it starts a
/// construction again, under another identity.
pub proof fn law_failed_open_is_retried(m: ManagerState, doc: Seq<char>)
    requires
        m.inv(),
        m.phase(doc) is Closed,
    ensures
        m.begin_open(doc, true).finish_open(doc, false).sessions == m.sessions,
        m.begin_open(doc, true).finish_open(doc, false).receivers == m.receivers,
        m.begin_open(doc, true).finish_open(doc, false).opening == m.opening,
        m.begin_open(doc, true).finish_open(doc, false).phase(doc) is Closed,
        m.begin_open(doc, true).open_answer(doc, true) matches OpenAnswer::Pending(first) ==> m.begin_open(
            doc,
            true,
        ).finish_open(doc, false).open_answer(doc, true) != OpenAnswer::Build(first),
        m.begin_open(doc, true).finish_open(doc, false).can_allocate() ==> m.begin_open(
            doc,
            true,
        ).finish_open(doc, false).open_answer(doc, true) is Build,
{
    let failed = m.begin_open(doc, true).finish_open(doc, false);
    assert(failed.opening =~= m.opening);
}

/// A request to open that the user refuses changes nothing.
pub proof fn law_refused_open_changes_nothing(m: ManagerState, doc: Seq<char>)
    ensures
        m.begin_open(doc, false) == m,
{
}

/// A message for a document goes to the session of that document where the
/// document is open, and to nobody where it is not.
pub proof fn law_route_follows_phase(m: ManagerState, doc: Seq<char>)
    requires
        m.inv(),
    ensures
        m.route(doc) == match m.phase(doc) {
            Phase::Open(session) => Some(session),
            _ => None::<u64>,
        },
{
}

/// After a document was closed no message for it finds a receiver, until a
/// construction for it has ended well.
pub proof fn law_closed_document_gets_no_message(m: ManagerState, doc: Seq<char>, steps: Seq<Step>)
    requires
        m.inv(),
        without(steps, Step::FinishOpen(doc, true)),
    ensures
        m.close(doc).run(steps).route(doc) is None,
    decreases steps.len(),
{
    if steps.len() > 0 {
        let before = steps.drop_last();
        assert forall|i: int| 0 <= i < before.len() implies before[i] != Step::FinishOpen(
            doc,
            true,
        ) by {
            assert(before[i] == steps[i]);
        }
        law_closed_document_gets_no_message(m, doc, before);
        assert(steps.last() == steps[steps.len() - 1]);
    }
}

/// No operation brings a retired identity back.
pub proof fn lemma_retired_stays(m: ManagerState, session: u64, steps: Seq<Step>)
    requires
        m.inv(),
        retired(m, session),
    ensures
        retired(m.run(steps), session),
    decreases steps.len(),
{
    if steps.len() > 0 {
        let before = m.run(steps.drop_last());
        let after = m.run(steps);
        lemma_retired_stays(m, session, steps.drop_last());
        lemma_run_inv(m, steps.drop_last());
        assert(after == before.apply(steps.last()));
        assert forall|doc: Seq<char>| after.bound(doc) != Some(session) by {
            assert(before.bound(doc) != Some(session));
            match steps.last() {
                Step::BeginOpen(subject, granted) => {
                    if doc != subject {
                        assert(after.bound(doc) == before.bound(doc));
                    }
                },
                Step::FinishOpen(subject, built) => {
                    assert(before.bound(subject) != Some(session));
                    if doc != subject {
                        assert(after.bound(doc) == before.bound(doc));
                    }
                },
                Step::Close(subject) => {
                    if doc != subject {
                        assert(after.bound(doc) == before.bound(doc));
                    }
                },
                Step::Listen => {
                    assert(after.bound(doc) == before.bound(doc));
                },
            }
        }
    }
}

/// The session that a document gets after it was closed is never the one it
/// had before: whatever happens after the close, no request to open the
/// document names the old session, and no document is bound to it again.
pub proof fn law_reopened_session_is_new(
    m: ManagerState,
    doc: Seq<char>,
    session: u64,
    steps: Seq<Step>,
    granted: bool,
)
    requires
        m.inv(),
        m.phase(doc) == Phase::Open(session),
    ensures
        retired(m.close(doc).run(steps), session),
        m.close(doc).run(steps).open_answer(doc, granted) != OpenAnswer::Cached(session),
        m.close(doc).run(steps).open_answer(doc, granted) != OpenAnswer::Pending(session),
        m.close(doc).run(steps).open_answer(doc, granted) != OpenAnswer::Build(session),
{
    let closed = m.close(doc);
    lemma_close_inv(m, doc);
    assert forall|other: Seq<char>| closed.bound(other) != Some(session) by {
        assert(m.bound(doc) == Some(session));
        if other != doc {
            assert(closed.bound(other) == m.bound(other));
        }
    }
    lemma_retired_stays(closed, session, steps);
    let later = closed.run(steps);
    assert(later.bound(doc) != Some(session));
}

/// A connectivity change that is published once the fan-out runs reaches the
/// receiver of every document that is open then.
pub proof fn law_registered_receiver_hears(m: ManagerState, doc: Seq<char>, session: u64)
    requires
        m.inv(),
        m.listening,
        m.phase(doc) == Phase::Open(session),
    ensures
        m.hears(session),
{
    assert(m.receivers.contains_key(doc) && m.receivers[doc] == session);
}

/// A connectivity change never reaches a receiver that is not registered
/// when it is published: not the session of a construction in flight, not an
/// identity that is yet to be handed out, and not a session that was closed.
pub proof fn law_unregistered_receiver_hears_nothing(m: ManagerState, session: u64)
    requires
        m.inv(),
        forall|doc: Seq<char>| m.phase(doc) != Phase::Open(session),
    ensures
        !m.hears(session),
{
    if m.hears(session) {
        let doc = choose|doc: Seq<char>|
            m.receivers.contains_key(doc) && #[trigger] m.receivers[doc] == session;
        assert(m.phase(doc) == Phase::Open(session));
    }
}

/// Before its construction has ended a session hears nothing, whether the
/// fan-out runs or not.
pub proof fn law_receiver_under_construction_hears_nothing(
    m: ManagerState,
    doc: Seq<char>,
    session: u64,
)
    requires
        m.inv(),
        m.phase(doc) == Phase::Opening(session) || session >= m.next_session,
    ensures
        !m.hears(session),
{
    assert forall|other: Seq<char>| m.phase(other) != Phase::Open(session) by {
        if m.phase(other) == Phase::Open(session) {
            assert(m.bound(other) == Some(session));
            if m.phase(doc) == Phase::Opening(session) {
                assert(m.bound(doc) == Some(session));
            }
        }
    }
    law_unregistered_receiver_hears_nothing(m, session);
}

} // verus!
