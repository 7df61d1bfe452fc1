//! The manager of editing sessions.
//!
//! Every operation is one step of the state machine of `crate::model`: it
//! consults or changes the registries and tells the caller what to do next.
//! Building an editor, stopping one and talking to the cloud are the caller's
//! part; the caller reports the outcome with the matching `finish_` call.

use crate::entities::DocumentDelta;
use crate::entities::Revision;
use crate::entities::WSConnectState;
use crate::errors::ErrorCode;
use crate::errors::FlowyError;
use crate::model::CloseStep;
use crate::model::ManagerState;
use crate::model::OpenAnswer;
use crate::model::Phase;
use crate::model::lemma_begin_open_inv;
use crate::model::lemma_close_inv;
use crate::model::lemma_finish_open_inv;
use crate::model::lemma_initial_inv;
use crate::model::lemma_listen_inv;
use crate::registry::lookup;
use crate::registry::table_entries;
use crate::registry::table_get;
use crate::registry::table_insert;
use crate::registry::table_new;
use crate::registry::table_pairs;
use crate::registry::table_remove;
use crate::registry::DocumentEditorHandlers;
use crate::registry::SessionId;
use crate::registry::SessionTable;
use crate::ws_data::decode;
use crate::ws_data::ServerRevisionWSData;
use vstd::prelude::*;

verus! {

/// The signed-in user, as the manager needs them.
pub trait DocumentUser: Send + Sync {
    /// The handle of the local store.
    type Pool;

    fn user_dir(&self) -> Result<String, FlowyError>;

    fn user_id(&self) -> Result<String, FlowyError>;

    fn token(&self) -> Result<String, FlowyError>;

    fn db_pool(&self) -> Result<Self::Pool, FlowyError>;
}

/// What the user has to grant before a session can be built.
pub struct Credentials<P> {
    pub pool: P,
    pub token: String,
    pub user_id: String,
}

/// The order to build the session of a document.
pub struct BuildRequest<P> {
    /// The identity that the session will have.
    pub session: SessionId,
    pub doc_id: String,
    /// The user whose revision cache the session works on.
    pub user_id: String,
    /// The token for the fetch from the cloud.
    pub token: String,
    /// The store of the revision cache.
    pub pool: P,
}

/// The answer to a request to open a document.
pub enum OpenStep<P> {
    /// The document is open: this is its session.
    Cached(SessionId),
    /// Someone else is building the session of this identity. Ask again when
    /// that construction has ended.
    Pending(SessionId),
    /// Build the session, then report with `finish_open`.
    Build(BuildRequest<P>),
}

/// The order to tell one receiver of a connectivity change.
#[derive(Clone, Copy, Debug, PartialEq, Eq, Structural)]
pub struct StateNotice {
    /// The session whose receiver is told.
    pub session: SessionId,
    pub state: WSConnectState,
}

/// What becomes of an inbound message.
pub enum Dispatch {
    /// The bytes are no message. They are dropped; the error is for the log.
    Malformed(FlowyError),
    /// The document of the message is not open here. The message is dropped.
    NoHandler(ServerRevisionWSData),
    /// The message goes to the receiver of this session.
    Deliver(SessionId, ServerRevisionWSData),
}

/// The order to replace the history of a document.
pub struct ResetRequest<P> {
    pub doc_id: String,
    /// The user whose revision cache is reset.
    pub user_id: String,
    /// The store of the revision cache.
    pub pool: P,
    /// The new history, oldest first.
    pub revisions: Vec<Revision>,
}

/// The answer that `step` gives, by the identity it names.
pub open spec fn answer_of<P>(step: Result<OpenStep<P>, FlowyError>) -> OpenAnswer {
    match step {
        Ok(OpenStep::Cached(session)) => OpenAnswer::Cached(session),
        Ok(OpenStep::Pending(session)) => OpenAnswer::Pending(session),
        Ok(OpenStep::Build(request)) => OpenAnswer::Build(request.session),
        Err(_) => OpenAnswer::Refused,
    }
}

/// The manager of the editing sessions of one user.
pub struct FlowyDocumentManager<U: DocumentUser> {
    ws_data_receivers: SessionTable,
    document_handlers: DocumentEditorHandlers,
    opening: SessionTable,
    next_session: u64,
    listening: bool,
    document_user: U,
}

impl<U: DocumentUser> View for FlowyDocumentManager<U> {
    type V = ManagerState;

    closed spec fn view(&self) -> ManagerState {
        ManagerState {
            sessions: self.document_handlers@,
            receivers: table_entries(self.ws_data_receivers),
            opening: table_entries(self.opening),
            next_session: self.next_session,
            listening: self.listening,
        }
    }
}

impl<U: DocumentUser> FlowyDocumentManager<U> {
    /// Whether the registries agree with each other.
    pub open spec fn wf(&self) -> bool {
        self@.inv()
    }

    /// A manager for `document_user` with nothing open.
    pub fn new(document_user: U) -> (manager: Self)
        ensures
            manager@ == ManagerState::initial(),
            manager.wf(),
    {
        proof {
            lemma_initial_inv();
        }
        FlowyDocumentManager {
            ws_data_receivers: table_new(),
            document_handlers: DocumentEditorHandlers::new(),
            opening: table_new(),
            next_session: 0,
            listening: false,
            document_user,
        }
    }

    /// Starts the fan-out of connectivity changes. Returns whether the caller
    /// is to subscribe to the transport now: `true` on the first call only.
    pub fn init(&mut self) -> (subscribe: bool)
        requires
            old(self).wf(),
        ensures
            final(self).wf(),
            final(self)@ == old(self)@.listen(),
            subscribe == !old(self)@.listening,
    {
        proof {
            lemma_listen_inv(self@);
        }
        let subscribe = !self.listening;
        self.listening = true;
        subscribe
    }

    /// The session of `doc_id`, if the document is open.
    pub fn get_editor(&self, doc_id: &str) -> (found: Option<SessionId>)
        ensures
            found == lookup(self@.sessions, doc_id@),
    {
        self.document_handlers.get(doc_id)
    }

    /// Asks the user for what a construction needs: the store, the token and
    /// the user's id, in this order. The first refusal is returned.
    fn credentials(&self) -> (granted: Result<Credentials<U::Pool>, FlowyError>) {
        let pool = match self.document_user.db_pool() {
            Ok(pool) => pool,
            Err(e) => {
                return Err(e);
            },
        };
        let token = match self.document_user.token() {
            Ok(token) => token,
            Err(e) => {
                return Err(e);
            },
        };
        match self.document_user.user_id() {
            Ok(user_id) => Ok(Credentials { pool, token, user_id }),
            Err(e) => Err(e),
        }
    }

    /// What a request to open `doc_id` finds without asking anybody: the
    /// cached session, or the construction in flight.
    fn find(&self, doc_id: &str) -> (found: Option<OpenStep<U::Pool>>)
        requires
            self.wf(),
        ensures
            match self@.phase(doc_id@) {
                Phase::Open(session) => found matches Some(OpenStep::Cached(s)) && s == session,
                Phase::Opening(session) => found matches Some(OpenStep::Pending(s)) && s
                    == session,
                Phase::Closed => found is None,
            },
    {
        match self.document_handlers.get(doc_id) {
            Some(session) => Some(OpenStep::Cached(session)),
            None => match table_get(&self.opening, doc_id) {
                Some(session) => Some(OpenStep::Pending(session)),
                None => None,
            },
        }
    }

    /// Starts the construction for the closed document `doc_id`, if the
    /// credentials were granted and an identity is left.
    fn begin(&mut self, doc_id: &str, granted: Result<Credentials<U::Pool>, FlowyError>) -> (step:
        Result<OpenStep<U::Pool>, FlowyError>)
        requires
            old(self).wf(),
            old(self)@.phase(doc_id@) is Closed,
        ensures
            final(self).wf(),
            final(self)@ == old(self)@.begin_open(doc_id@, granted is Ok),
            answer_of(step) == old(self)@.open_answer(doc_id@, granted is Ok),
            step matches Ok(OpenStep::Build(request)) ==> granted matches Ok(credentials)
                && request.doc_id@ == doc_id@ && request.user_id == credentials.user_id
                && request.token == credentials.token && request.pool == credentials.pool,
            step matches Err(e) ==> match granted {
                Err(refusal) => e == refusal,
                Ok(_) => e.code == ErrorCode::Internal,
            },
    {
        proof {
            lemma_begin_open_inv(self@, doc_id@, granted is Ok);
        }
        let credentials = match granted {
            Ok(credentials) => credentials,
            Err(refusal) => {
                return Err(refusal);
            },
        };
        if self.next_session == u64::MAX {
            return Err(FlowyError::internal().context("session identities are used up"));
        }
        let session = self.next_session;
        let _ = table_insert(&mut self.opening, doc_id.to_owned(), session);
        self.next_session = session + 1;
        Ok(
            OpenStep::Build(
                BuildRequest {
                    session,
                    doc_id: doc_id.to_owned(),
                    user_id: credentials.user_id,
                    token: credentials.token,
                    pool: credentials.pool,
                },
            ),
        )
    }

    /// Opens `doc_id` with the credentials that the user granted or refused.
    ///
    /// An open document answers with its cached session, and a document under
    /// construction with `Pending`; neither looks at `granted`. For a closed
    /// document a refusal is handed on, and a grant starts a construction
    /// under a fresh identity, unless the identities are used up: that is an
    /// internal error.
    pub fn open_with(&mut self, doc_id: &str, granted: Result<Credentials<U::Pool>, FlowyError>) -> (step:
        Result<OpenStep<U::Pool>, FlowyError>)
        requires
            old(self).wf(),
        ensures
            final(self).wf(),
            final(self)@ == old(self)@.begin_open(doc_id@, granted is Ok),
            answer_of(step) == old(self)@.open_answer(doc_id@, granted is Ok),
            step matches Ok(OpenStep::Build(request)) ==> granted matches Ok(credentials)
                && request.doc_id@ == doc_id@ && request.user_id == credentials.user_id
                && request.token == credentials.token && request.pool == credentials.pool,
            step matches Err(e) ==> match granted {
                Err(refusal) => e == refusal,
                Ok(_) => e.code == ErrorCode::Internal,
            },
    {
        match self.find(doc_id) {
            Some(step) => Ok(step),
            None => self.begin(doc_id, granted),
        }
    }

    /// Opens `doc_id`. The user is asked for credentials only where the
    /// document is closed, and whatever the user refuses is handed on.
    pub fn open_document(&mut self, doc_id: &str) -> (step: Result<OpenStep<U::Pool>, FlowyError>)
        requires
            old(self).wf(),
        ensures
            final(self).wf(),
            final(self)@ == old(self)@.begin_open(doc_id@, step is Ok),
            answer_of(step) == old(self)@.open_answer(doc_id@, step is Ok),
            step matches Ok(OpenStep::Build(request)) ==> request.doc_id@ == doc_id@,
    {
        match self.find(doc_id) {
            Some(step) => Ok(step),
            None => {
                let granted = self.credentials();
                self.begin(doc_id, granted)
            },
        }
    }

    /// Ends the construction for `doc_id`. Where it went well the session is
    /// registered, its receiver first, and returned; where it failed nothing
    /// is cached and the failure is handed on. Without a construction in
    /// flight nothing changes and the answer is an internal error.
    pub fn finish_open(&mut self, doc_id: &str, built: Result<(), FlowyError>) -> (session: Result<
        SessionId,
        FlowyError,
    >)
        requires
            old(self).wf(),
        ensures
            final(self).wf(),
            final(self)@ == old(self)@.finish_open(doc_id@, built is Ok),
            match old(self)@.phase(doc_id@) {
                Phase::Opening(pending) => match built {
                    Ok(_) => session matches Ok(s) && s == pending,
                    Err(failure) => session matches Err(e) && e == failure,
                },
                _ => session matches Err(e) && e.code == ErrorCode::Internal,
            },
    {
        proof {
            lemma_finish_open_inv(self@, doc_id@, built is Ok);
        }
        let pending = match table_get(&self.opening, doc_id) {
            Some(pending) => pending,
            None => {
                return Err(FlowyError::internal().context("no construction is in flight"));
            },
        };
        let _ = table_remove(&mut self.opening, doc_id);
        match built {
            Ok(_) => {
                let _ = table_insert(&mut self.ws_data_receivers, doc_id.to_owned(), pending);
                let _ = self.document_handlers.insert(doc_id, pending);
                Ok(pending)
            },
            Err(failure) => Err(failure),
        }
    }

    /// Drops the session of `doc_id` and its route in one step.
    fn release(&mut self, doc_id: &str) -> (step: CloseStep)
        requires
            old(self).wf(),
        ensures
            final(self).wf(),
            final(self)@ == old(self)@.close(doc_id@),
            step == old(self)@.close_answer(doc_id@),
    {
        proof {
            lemma_close_inv(self@, doc_id@);
        }
        let stopped = self.document_handlers.remove(doc_id);
        let _ = table_remove(&mut self.ws_data_receivers, doc_id);
        match stopped {
            Some(session) => CloseStep::Released(session),
            None => match table_get(&self.opening, doc_id) {
                Some(session) => CloseStep::Deferred(session),
                None => CloseStep::Absent,
            },
        }
    }

    /// Closes `doc_id`: its session and its route leave the registries
    /// together, and the session is returned for the caller to stop. A
    /// caller that has to stop the session while it is still registered asks
    /// `get_editor` for it first. A document that is not open is left as it
    /// is, which is no error; one whose construction is in flight is left to
    /// that construction, and the request is to be made again afterwards.
    pub fn close_document(&mut self, doc_id: &str) -> (step: CloseStep)
        requires
            old(self).wf(),
        ensures
            final(self).wf(),
            final(self)@ == old(self)@.close(doc_id@),
            step == old(self)@.close_answer(doc_id@),
    {
        self.release(doc_id)
    }

    /// Deletes `doc_id`. To the registries this is what closing is.
    pub fn delete(&mut self, doc_id: &str) -> (step: CloseStep)
        requires
            old(self).wf(),
        ensures
            final(self).wf(),
            final(self)@ == old(self)@.close(doc_id@),
            step == old(self)@.close_answer(doc_id@),
    {
        self.release(doc_id)
    }

    /// Fans a connectivity change out: one notice of `state` for every
    /// receiver that is registered now, each receiver once, in no promised
    /// order. Before `init` nobody is told.
    pub fn connect_state_changed(&self, state: WSConnectState) -> (notices: Vec<StateNotice>)
        requires
            self.wf(),
        ensures
            forall|i: int| 0 <= i < notices@.len() ==> (#[trigger] notices@[i]).state == state,
            forall|session: u64|
                self@.hears(session) <==> exists|i: int|
                    0 <= i < notices@.len() && (#[trigger] notices@[i]).session == session,
            forall|i: int, j: int|
                0 <= i < j < notices@.len() ==> (#[trigger] notices@[i]).session != (
                #[trigger] notices@[j]).session,
    {
        let mut notices: Vec<StateNotice> = Vec::new();
        if !self.listening {
            return notices;
        }
        let pairs = table_pairs(&self.ws_data_receivers);
        let ghost receivers = self@.receivers;
        let mut i: usize = 0;
        while i < pairs.len()
            invariant
                i <= pairs.len(),
                notices@.len() == i,
                forall|j: int|
                    0 <= j < i ==> (#[trigger] notices@[j]) == (StateNotice {
                        session: pairs@[j].1,
                        state,
                    }),
            decreases pairs.len() - i,
        {
            notices.push(StateNotice { session: pairs[i].1, state });
            i += 1;
        }
        proof {
            assert forall|a: int, b: int| 0 <= a < b < notices@.len() implies (
            #[trigger] notices@[a]).session != (#[trigger] notices@[b]).session by {
                let da = pairs@[a].0@;
                let db = pairs@[b].0@;
                assert(lookup(receivers, da) == Some(pairs@[a].1));
                assert(lookup(receivers, db) == Some(pairs@[b].1));
                assert(da != db);
                assert(self@.bound(da) == Some(notices@[a].session));
                assert(self@.bound(db) == Some(notices@[b].session));
            }
            assert forall|session: u64| self@.hears(session) implies exists|i: int|
                0 <= i < notices@.len() && (#[trigger] notices@[i]).session == session by {
                let doc = choose|doc: Seq<char>|
                    receivers.contains_key(doc) && #[trigger] receivers[doc] == session;
                let j = choose|j: int| 0 <= j < pairs@.len() && (#[trigger] pairs@[j]).0@ == doc;
                assert(lookup(receivers, pairs@[j].0@) == Some(pairs@[j].1));
                assert(notices@[j].session == session);
            }
            assert forall|session: u64|
                (exists|i: int|
                    0 <= i < notices@.len() && (#[trigger] notices@[i]).session
                        == session) implies self@.hears(session) by {
                let j = choose|j: int|
                    0 <= j < notices@.len() && (#[trigger] notices@[j]).session == session;
                let doc = pairs@[j].0@;
                assert(lookup(receivers, doc) == Some(pairs@[j].1));
                assert(receivers.contains_key(doc) && receivers[doc] == session);
            }
        }
        notices
    }

    /// Finds the receiver of `message`: the session of the document that the
    /// message names, where that document is open.
    pub fn dispatch(&self, message: ServerRevisionWSData) -> (outcome: Dispatch)
        ensures
            match self@.route(message.object_id@) {
                Some(session) => outcome == Dispatch::Deliver(session, message),
                None => outcome == Dispatch::NoHandler(message),
            },
    {
        match table_get(&self.ws_data_receivers, message.object_id.as_str()) {
            Some(session) => Dispatch::Deliver(session, message),
            None => Dispatch::NoHandler(message),
        }
    }

    /// Decodes inbound bytes and finds their receiver. Bytes that are no
    /// message are dropped, and so is a message for a document that is not
    /// open; neither is an error to the transport.
    pub fn receive_ws_data(&self, data: &[u8]) -> (outcome: Dispatch)
        ensures
            match decode(data@) {
                None => outcome matches Dispatch::Malformed(e) && e.code == ErrorCode::ParseError,
                Some(envelope) => match self@.route(envelope.object_id) {
                    Some(session) => outcome matches Dispatch::Deliver(receiver, message)
                        && receiver == session && message@ == envelope,
                    None => outcome matches Dispatch::NoHandler(message) && message@ == envelope,
                },
            },
    {
        match ServerRevisionWSData::from_bytes(data) {
            Ok(message) => self.dispatch(message),
            Err(e) => Dispatch::Malformed(e),
        }
    }

    /// Takes a local edit in: opens the document of `delta`, or finds it
    /// open, as `open_document` does. The caller composes the delta into the
    /// session it gets and answers with `local_delta_reply`.
    pub fn receive_local_delta(&mut self, delta: &DocumentDelta) -> (step: Result<
        OpenStep<U::Pool>,
        FlowyError,
    >)
        requires
            old(self).wf(),
        ensures
            final(self).wf(),
            final(self)@ == old(self)@.begin_open(delta.doc_id@, step is Ok),
            answer_of(step) == old(self)@.open_answer(delta.doc_id@, step is Ok),
            step matches Ok(OpenStep::Build(request)) ==> request.doc_id@ == delta.doc_id@,
    {
        self.open_document(delta.doc_id.as_str())
    }

    /// The order to replace the history of `doc_id` by `revisions`, or what
    /// the user refused.
    pub fn reset_with_revisions(&self, doc_id: &str, revisions: Vec<Revision>) -> (order: Result<
        ResetRequest<U::Pool>,
        FlowyError,
    >)
        ensures
            order matches Ok(request) ==> request.doc_id@ == doc_id@ && request.revisions
                == revisions,
    {
        let pool = match self.document_user.db_pool() {
            Ok(pool) => pool,
            Err(e) => {
                return Err(e);
            },
        };
        let user_id = self.document_user.user_id();
        reset_request(doc_id, revisions, Ok(pool), user_id)
    }
}

/// The answer to a local edit: the document of `delta` with the content that
/// the editor reports after composing it, or the editor's failure.
pub fn local_delta_reply(delta: &DocumentDelta, composed: Result<String, FlowyError>) -> (reply:
    Result<DocumentDelta, FlowyError>)
    ensures
        match composed {
            Ok(content) => reply matches Ok(document) && document.doc_id == delta.doc_id
                && document.delta_json == content,
            Err(failure) => reply matches Err(e) && e == failure,
        },
{
    match composed {
        Ok(content) => Ok(DocumentDelta { doc_id: delta.doc_id.clone(), delta_json: content }),
        Err(failure) => Err(failure),
    }
}

/// The order to replace the history of `doc_id` by `revisions`, given what the
/// user granted: the store first, then the user's id. The revisions are
/// handed on as they are, in their order.
pub fn reset_request<P>(
    doc_id: &str,
    revisions: Vec<Revision>,
    pool: Result<P, FlowyError>,
    user_id: Result<String, FlowyError>,
) -> (order: Result<ResetRequest<P>, FlowyError>)
    ensures
        match pool {
            Err(refusal) => order matches Err(e) && e == refusal,
            Ok(store) => match user_id {
                Err(refusal) => order matches Err(e) && e == refusal,
                Ok(user) => order matches Ok(request) && request.doc_id@ == doc_id@
                    && request.user_id == user && request.pool == store && request.revisions
                    == revisions,
            },
        },
{
    let pool = match pool {
        Ok(pool) => pool,
        Err(refusal) => {
            return Err(refusal);
        },
    };
    match user_id {
        Ok(user_id) => Ok(ResetRequest { doc_id: doc_id.to_owned(), user_id, pool, revisions }),
        Err(refusal) => Err(refusal),
    }
}

} // verus!
