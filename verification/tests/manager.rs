use std::sync::Arc;
use std::sync::Mutex;

use flowy_document::cloud::initial_revision;
use flowy_document::entities::DocumentDelta;
use flowy_document::entities::Revision;
use flowy_document::entities::WSConnectState;
use flowy_document::errors::ErrorCode;
use flowy_document::errors::FlowyError;
use flowy_document::manager::local_delta_reply;
use flowy_document::manager::reset_request;
use flowy_document::manager::Credentials;
use flowy_document::manager::Dispatch;
use flowy_document::manager::DocumentUser;
use flowy_document::manager::FlowyDocumentManager;
use flowy_document::manager::OpenStep;
use flowy_document::manager::StateNotice;
use flowy_document::model::CloseStep;
use flowy_document::ws_data::ServerRevisionWSData;
use flowy_document::ws_data::ServerRevisionWSDataType;

/// A user who grants everything but what `refuses` names, and notes what was
/// asked of them.
struct Desk {
    refuses: Option<&'static str>,
    asked: Arc<Mutex<Vec<&'static str>>>,
}

impl Desk {
    fn granting() -> Desk {
        Desk { refuses: None, asked: Arc::new(Mutex::new(Vec::new())) }
    }

    fn refusing(what: &'static str) -> Desk {
        Desk { refuses: Some(what), asked: Arc::new(Mutex::new(Vec::new())) }
    }

    fn answer<T>(&self, what: &'static str, code: ErrorCode, value: T) -> Result<T, FlowyError> {
        self.asked.lock().unwrap().push(what);
        if self.refuses == Some(what) {
            Err(FlowyError { code, msg: what.to_string() })
        } else {
            Ok(value)
        }
    }
}

impl DocumentUser for Desk {
    type Pool = u32;

    fn user_dir(&self) -> Result<String, FlowyError> {
        self.answer("user_dir", ErrorCode::AuthError, "/home/u1".to_string())
    }

    fn user_id(&self) -> Result<String, FlowyError> {
        self.answer("user_id", ErrorCode::AuthError, "u1".to_string())
    }

    fn token(&self) -> Result<String, FlowyError> {
        self.answer("token", ErrorCode::AuthError, "t0k".to_string())
    }

    fn db_pool(&self) -> Result<u32, FlowyError> {
        self.answer("db_pool", ErrorCode::StorageError, 42)
    }
}

fn build(manager: &mut FlowyDocumentManager<Desk>, doc_id: &str) -> u64 {
    match manager.open_document(doc_id) {
        Ok(OpenStep::Build(request)) => request.session,
        _ => panic!("a closed document starts a construction"),
    }
}

fn open(manager: &mut FlowyDocumentManager<Desk>, doc_id: &str) -> u64 {
    let session = build(manager, doc_id);
    match manager.finish_open(doc_id, Ok(())) {
        Ok(opened) => assert_eq!(opened, session),
        Err(_) => panic!("a construction that went well registers its session"),
    }
    session
}

fn cached(manager: &mut FlowyDocumentManager<Desk>, doc_id: &str) -> Option<u64> {
    match manager.open_document(doc_id) {
        Ok(OpenStep::Cached(session)) => Some(session),
        _ => None,
    }
}

fn heard(manager: &FlowyDocumentManager<Desk>, state: WSConnectState) -> Vec<u64> {
    let notices = manager.connect_state_changed(state);
    for notice in &notices {
        assert_eq!(notice.state, state);
    }
    let mut sessions: Vec<u64> = notices.iter().map(|notice| notice.session).collect();
    sessions.sort();
    sessions
}

fn envelope(object_id: &str) -> Vec<u8> {
    let mut bytes = vec![0x0a, object_id.len() as u8];
    bytes.extend_from_slice(object_id.as_bytes());
    bytes.extend_from_slice(&[0x10, 0x01, 0x1a, 0x02, 0xbe, 0xef]);
    bytes
}

fn revision(rev_id: i64, text: &str) -> Revision {
    Revision::new("doc-1", rev_id - 1, rev_id, text.as_bytes().to_vec(), "u1", String::new())
}

#[test]
fn first_open_orders_a_build_with_the_users_credentials() {
    let mut manager = FlowyDocumentManager::new(Desk::granting());
    match manager.open_document("doc-1") {
        Ok(OpenStep::Build(request)) => {
            assert_eq!(request.session, 0);
            assert_eq!(request.doc_id, "doc-1");
            assert_eq!(request.user_id, "u1");
            assert_eq!(request.token, "t0k");
            assert_eq!(request.pool, 42);
        },
        _ => panic!("a closed document starts a construction"),
    }
    assert_eq!(manager.get_editor("doc-1"), None);
}

#[test]
fn open_twice_without_close_finds_the_same_session() {
    let mut manager = FlowyDocumentManager::new(Desk::granting());
    let session = open(&mut manager, "doc-1");
    assert_eq!(cached(&mut manager, "doc-1"), Some(session));
    let other = open(&mut manager, "doc-2");
    assert_ne!(other, session);
    assert_eq!(manager.close_document("doc-2"), CloseStep::Released(other));
    assert_eq!(cached(&mut manager, "doc-1"), Some(session));
    assert_eq!(manager.get_editor("doc-1"), Some(session));
}

#[test]
fn open_during_a_build_does_not_build_again() {
    let mut manager = FlowyDocumentManager::new(Desk::granting());
    let session = build(&mut manager, "doc-1");
    match manager.open_document("doc-1") {
        Ok(OpenStep::Pending(pending)) => assert_eq!(pending, session),
        _ => panic!("a second request waits for the construction in flight"),
    }
    assert_eq!(manager.finish_open("doc-1", Ok(())).ok(), Some(session));
    assert_eq!(cached(&mut manager, "doc-1"), Some(session));
}

#[test]
fn cached_open_does_not_ask_the_user() {
    let desk = Desk::granting();
    let asked = desk.asked.clone();
    let mut manager = FlowyDocumentManager::new(desk);
    open(&mut manager, "doc-1");
    assert_eq!(*asked.lock().unwrap(), vec!["db_pool", "token", "user_id"]);
    assert!(cached(&mut manager, "doc-1").is_some());
    assert_eq!(asked.lock().unwrap().len(), 3);
}

#[test]
fn open_fails_with_storage_error_before_it_asks_for_the_token() {
    let desk = Desk::refusing("db_pool");
    let asked = desk.asked.clone();
    let mut manager = FlowyDocumentManager::new(desk);
    match manager.open_document("doc-1") {
        Err(e) => assert_eq!(e.code, ErrorCode::StorageError),
        Ok(_) => panic!("without a store nothing is opened"),
    }
    assert_eq!(*asked.lock().unwrap(), vec!["db_pool"]);
    assert_eq!(manager.get_editor("doc-1"), None);
}

#[test]
fn open_fails_with_auth_error_without_a_token() {
    let mut manager = FlowyDocumentManager::new(Desk::refusing("token"));
    match manager.open_document("doc-1") {
        Err(e) => {
            assert_eq!(e.code, ErrorCode::AuthError);
            assert_eq!(e.msg, "token");
        },
        Ok(_) => panic!("without a token nothing is opened"),
    }
    match manager.finish_open("doc-1", Ok(())) {
        Err(e) => assert_eq!(e.code, ErrorCode::Internal),
        Ok(_) => panic!("no construction was started"),
    }
}

#[test]
fn open_fails_with_auth_error_without_a_user_id() {
    let mut manager = FlowyDocumentManager::new(Desk::refusing("user_id"));
    match manager.open_document("doc-1") {
        Err(e) => {
            assert_eq!(e.code, ErrorCode::AuthError);
            assert_eq!(e.msg, "user_id");
        },
        Ok(_) => panic!("without a user nothing is opened"),
    }
}

#[test]
fn open_with_hands_a_refusal_on_and_ignores_it_on_a_cache_hit() {
    let mut manager = FlowyDocumentManager::new(Desk::granting());
    let refusal = FlowyError { code: ErrorCode::AuthError, msg: "signed out".to_string() };
    match manager.open_with("doc-1", Err(refusal.clone())) {
        Err(e) => {
            assert_eq!(e.code, ErrorCode::AuthError);
            assert_eq!(e.msg, "signed out");
        },
        Ok(_) => panic!("a refusal opens nothing"),
    }
    let session = open(&mut manager, "doc-1");
    match manager.open_with("doc-1", Err(refusal)) {
        Ok(OpenStep::Cached(found)) => assert_eq!(found, session),
        _ => panic!("an open document answers with its session"),
    }
    let granted = Credentials { pool: 7, token: "a".to_string(), user_id: "b".to_string() };
    match manager.open_with("doc-2", Ok(granted)) {
        Ok(OpenStep::Build(request)) => {
            assert_eq!(request.session, session + 1);
            assert_eq!(request.doc_id, "doc-2");
            assert_eq!(request.pool, 7);
            assert_eq!(request.token, "a");
            assert_eq!(request.user_id, "b");
        },
        _ => panic!("a grant for a closed document starts a construction"),
    }
}

#[test]
fn finish_open_without_a_build_is_an_internal_error() {
    let mut manager = FlowyDocumentManager::new(Desk::granting());
    match manager.finish_open("doc-1", Ok(())) {
        Err(e) => assert_eq!(e.code, ErrorCode::Internal),
        Ok(_) => panic!("nothing was under construction"),
    }
    let session = open(&mut manager, "doc-1");
    match manager.finish_open("doc-1", Ok(())) {
        Err(e) => assert_eq!(e.code, ErrorCode::Internal),
        Ok(_) => panic!("the construction had ended already"),
    }
    assert_eq!(manager.get_editor("doc-1"), Some(session));
}

#[test]
fn close_then_dispatch_drops_the_message() {
    let mut manager = FlowyDocumentManager::new(Desk::granting());
    let session = open(&mut manager, "doc-1");
    match manager.receive_ws_data(&envelope("doc-1")) {
        Dispatch::Deliver(receiver, message) => {
            assert_eq!(receiver, session);
            assert_eq!(message.object_id, "doc-1");
            assert_eq!(message.ty, ServerRevisionWSDataType::ServerPushRev);
            assert_eq!(message.data, vec![0xbe, 0xef]);
        },
        _ => panic!("an open document receives its messages"),
    }
    assert_eq!(manager.close_document("doc-1"), CloseStep::Released(session));
    match manager.receive_ws_data(&envelope("doc-1")) {
        Dispatch::NoHandler(message) => assert_eq!(message.object_id, "doc-1"),
        _ => panic!("a closed document receives nothing"),
    }
}

#[test]
fn reopen_after_close_gets_a_new_session() {
    let mut manager = FlowyDocumentManager::new(Desk::granting());
    let first = open(&mut manager, "doc-1");
    assert_eq!(manager.close_document("doc-1"), CloseStep::Released(first));
    assert_eq!(manager.get_editor("doc-1"), None);
    let second = open(&mut manager, "doc-1");
    assert_ne!(first, second);
    assert_eq!(first, 0);
    assert_eq!(second, 1);
    assert_eq!(manager.get_editor("doc-1"), Some(second));
}

#[test]
fn close_of_a_document_that_is_not_open_changes_nothing() {
    let mut manager = FlowyDocumentManager::new(Desk::granting());
    assert_eq!(manager.close_document("doc-1"), CloseStep::Absent);
    let session = open(&mut manager, "doc-2");
    assert_eq!(manager.close_document("doc-1"), CloseStep::Absent);
    assert_eq!(manager.get_editor("doc-2"), Some(session));
}

#[test]
fn close_during_a_build_is_deferred() {
    let mut manager = FlowyDocumentManager::new(Desk::granting());
    let session = build(&mut manager, "doc-1");
    assert_eq!(manager.close_document("doc-1"), CloseStep::Deferred(session));
    assert_eq!(manager.finish_open("doc-1", Ok(())).ok(), Some(session));
    assert_eq!(manager.close_document("doc-1"), CloseStep::Released(session));
    assert_eq!(manager.close_document("doc-1"), CloseStep::Absent);
}

#[test]
fn delete_does_to_the_registries_what_close_does() {
    let mut manager = FlowyDocumentManager::new(Desk::granting());
    assert_eq!(manager.delete("doc-1"), CloseStep::Absent);
    let session = open(&mut manager, "doc-1");
    assert_eq!(manager.delete("doc-1"), CloseStep::Released(session));
    assert_eq!(manager.get_editor("doc-1"), None);
    match manager.receive_ws_data(&envelope("doc-1")) {
        Dispatch::NoHandler(_) => {},
        _ => panic!("a deleted document receives nothing"),
    }
    let pending = build(&mut manager, "doc-1");
    assert_eq!(manager.delete("doc-1"), CloseStep::Deferred(pending));
}

#[test]
fn local_delta_reply_carries_the_content_after_the_edit() {
    let delta = DocumentDelta {
        doc_id: "doc-1".to_string(),
        delta_json: "[{\"insert\":\"abc\"}]".to_string(),
    };
    match local_delta_reply(&delta, Ok("[{\"insert\":\"123abc\\n\"}]".to_string())) {
        Ok(reply) => {
            assert_eq!(reply.doc_id, "doc-1");
            assert_eq!(reply.delta_json, "[{\"insert\":\"123abc\\n\"}]");
        },
        Err(_) => panic!("an edit that was composed has a reply"),
    }
}

#[test]
fn local_delta_reply_of_the_empty_delta_is_the_content_unchanged() {
    let content = "[{\"insert\":\"123\\n\"}]";
    let delta = DocumentDelta { doc_id: "doc-1".to_string(), delta_json: "[]".to_string() };
    match local_delta_reply(&delta, Ok(content.to_string())) {
        Ok(reply) => assert_eq!(reply.delta_json, content),
        Err(_) => panic!("an edit that was composed has a reply"),
    }
}

#[test]
fn local_delta_reply_hands_a_composition_error_on() {
    let delta = DocumentDelta { doc_id: "doc-1".to_string(), delta_json: "{".to_string() };
    let failure = FlowyError { code: ErrorCode::CompositionError, msg: "bad delta".to_string() };
    match local_delta_reply(&delta, Err(failure)) {
        Err(e) => {
            assert_eq!(e.code, ErrorCode::CompositionError);
            assert_eq!(e.msg, "bad delta");
        },
        Ok(_) => panic!("a failed composition has no content"),
    }
}

#[test]
fn receive_local_delta_opens_or_reuses_the_session() {
    let mut manager = FlowyDocumentManager::new(Desk::granting());
    let delta = DocumentDelta { doc_id: "doc-1".to_string(), delta_json: "[]".to_string() };
    let session = match manager.receive_local_delta(&delta) {
        Ok(OpenStep::Build(request)) => {
            assert_eq!(request.doc_id, "doc-1");
            request.session
        },
        _ => panic!("an edit of a closed document opens it"),
    };
    assert_eq!(manager.finish_open("doc-1", Ok(())).ok(), Some(session));
    match manager.receive_local_delta(&delta) {
        Ok(OpenStep::Cached(found)) => assert_eq!(found, session),
        _ => panic!("an edit of an open document reuses its session"),
    }
}

#[test]
fn reset_with_revisions_hands_the_revisions_on_in_order() {
    let manager = FlowyDocumentManager::new(Desk::granting());
    let revisions = vec![revision(1, "r0"), revision(2, "r1")];
    match manager.reset_with_revisions("doc-1", revisions) {
        Ok(order) => {
            assert_eq!(order.doc_id, "doc-1");
            assert_eq!(order.user_id, "u1");
            assert_eq!(order.pool, 42);
            assert_eq!(order.revisions.len(), 2);
            assert_eq!(order.revisions[0].rev_id, 1);
            assert_eq!(order.revisions[0].delta_data, b"r0".to_vec());
            assert_eq!(order.revisions[1].rev_id, 2);
            assert_eq!(order.revisions[1].delta_data, b"r1".to_vec());
        },
        Err(_) => panic!("a user who grants everything gets the order"),
    }
}

#[test]
fn reset_with_revisions_asks_for_the_store_then_for_the_user() {
    let desk = Desk::refusing("user_id");
    let asked = desk.asked.clone();
    let manager = FlowyDocumentManager::new(desk);
    match manager.reset_with_revisions("doc-1", vec![revision(1, "r0")]) {
        Err(e) => assert_eq!(e.code, ErrorCode::AuthError),
        Ok(_) => panic!("without a user nothing is reset"),
    }
    assert_eq!(*asked.lock().unwrap(), vec!["db_pool", "user_id"]);
    let manager = FlowyDocumentManager::new(Desk::refusing("db_pool"));
    match manager.reset_with_revisions("doc-1", vec![revision(1, "r0")]) {
        Err(e) => assert_eq!(e.code, ErrorCode::StorageError),
        Ok(_) => panic!("without a store nothing is reset"),
    }
}

#[test]
fn reset_request_prefers_the_refusal_of_the_store() {
    let store = FlowyError { code: ErrorCode::StorageError, msg: "no store".to_string() };
    let user = FlowyError { code: ErrorCode::AuthError, msg: "no user".to_string() };
    match reset_request::<u32>("doc-1", Vec::new(), Err(store), Err(user.clone())) {
        Err(e) => assert_eq!(e.msg, "no store"),
        Ok(_) => panic!("both were refused"),
    }
    match reset_request("doc-1", Vec::new(), Ok(1u32), Err(user)) {
        Err(e) => assert_eq!(e.msg, "no user"),
        Ok(_) => panic!("the user was refused"),
    }
    match reset_request("doc-1", Vec::new(), Ok(1u32), Ok("u1".to_string())) {
        Ok(order) => {
            assert_eq!(order.pool, 1);
            assert!(order.revisions.is_empty());
        },
        Err(_) => panic!("everything was granted"),
    }
}

#[test]
fn init_asks_to_subscribe_once() {
    let mut manager = FlowyDocumentManager::new(Desk::granting());
    assert!(manager.init());
    assert!(!manager.init());
    assert!(!manager.init());
}

#[test]
fn state_changes_reach_the_receivers_registered_when_they_are_published() {
    let mut manager = FlowyDocumentManager::new(Desk::granting());
    manager.init();
    assert!(heard(&manager, WSConnectState::Connecting).is_empty());
    let first = open(&mut manager, "doc-1");
    assert_eq!(
        manager.connect_state_changed(WSConnectState::Connected),
        vec![StateNotice { session: first, state: WSConnectState::Connected }]
    );
    let pending = build(&mut manager, "doc-2");
    assert_eq!(heard(&manager, WSConnectState::Disconnected), vec![first]);
    assert_eq!(manager.finish_open("doc-2", Ok(())).ok(), Some(pending));
    assert_eq!(heard(&manager, WSConnectState::Connecting), vec![first, pending]);
    assert_eq!(manager.close_document("doc-1"), CloseStep::Released(first));
    assert_eq!(heard(&manager, WSConnectState::Connected), vec![pending]);
}

#[test]
fn state_changes_reach_nobody_before_init() {
    let mut manager = FlowyDocumentManager::new(Desk::granting());
    let session = open(&mut manager, "doc-1");
    assert!(manager.connect_state_changed(WSConnectState::Connected).is_empty());
    manager.init();
    assert_eq!(heard(&manager, WSConnectState::Connected), vec![session]);
}

#[test]
fn state_change_is_told_to_every_receiver_once() {
    let mut manager = FlowyDocumentManager::new(Desk::granting());
    manager.init();
    let mut opened = Vec::new();
    for i in 0..50 {
        opened.push(open(&mut manager, &format!("doc-{}", i)));
    }
    assert_eq!(manager.connect_state_changed(WSConnectState::Init).len(), 50);
    assert_eq!(heard(&manager, WSConnectState::Init), opened);
}

#[test]
fn missing_remote_document_fails_open_and_is_retried() {
    let mut manager = FlowyDocumentManager::new(Desk::granting());
    let first = build(&mut manager, "doc-9");
    let fetched = initial_revision("u1", Ok(None));
    let failure = match fetched {
        Err(e) => e,
        Ok(_) => panic!("the remote has no such document"),
    };
    assert_eq!(failure.code, ErrorCode::RecordNotFound);
    match manager.finish_open("doc-9", Err(failure)) {
        Err(e) => assert_eq!(e.code, ErrorCode::RecordNotFound),
        Ok(_) => panic!("a failed construction opens nothing"),
    }
    assert_eq!(manager.get_editor("doc-9"), None);
    manager.init();
    assert!(manager.connect_state_changed(WSConnectState::Connected).is_empty());
    match manager.receive_ws_data(&envelope("doc-9")) {
        Dispatch::NoHandler(_) => {},
        _ => panic!("nothing was registered"),
    }
    let second = build(&mut manager, "doc-9");
    assert_ne!(first, second);
}

#[test]
fn inbound_bytes_for_an_unopened_document_are_dropped() {
    let mut manager = FlowyDocumentManager::new(Desk::granting());
    open(&mut manager, "doc-2");
    match manager.receive_ws_data(&envelope("doc-1")) {
        Dispatch::NoHandler(message) => {
            assert_eq!(message.object_id, "doc-1");
            assert_eq!(message.ty, ServerRevisionWSDataType::ServerPushRev);
        },
        _ => panic!("no session of doc-1 is open"),
    }
}

#[test]
fn malformed_inbound_bytes_are_dropped_with_a_parse_error() {
    let mut manager = FlowyDocumentManager::new(Desk::granting());
    open(&mut manager, "doc-1");
    match manager.receive_ws_data(&[0x0a, 0x05, b'd', b'o']) {
        Dispatch::Malformed(e) => assert_eq!(e.code, ErrorCode::ParseError),
        _ => panic!("the object id is truncated"),
    }
}

#[test]
fn dispatch_routes_a_decoded_message_by_its_object_id() {
    let mut manager = FlowyDocumentManager::new(Desk::granting());
    let session = open(&mut manager, "doc-1");
    let message = ServerRevisionWSData {
        object_id: "doc-1".to_string(),
        ty: ServerRevisionWSDataType::ServerAck,
        data: vec![1, 2, 3],
    };
    match manager.dispatch(message.clone()) {
        Dispatch::Deliver(receiver, delivered) => {
            assert_eq!(receiver, session);
            assert_eq!(delivered.data, vec![1, 2, 3]);
        },
        _ => panic!("doc-1 is open"),
    }
    let stray = ServerRevisionWSData { object_id: "doc-10".to_string(), ..message };
    match manager.dispatch(stray) {
        Dispatch::NoHandler(dropped) => assert_eq!(dropped.object_id, "doc-10"),
        _ => panic!("doc-10 is not open"),
    }
}
