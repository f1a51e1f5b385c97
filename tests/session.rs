use note_sync::dispatch::{Pending, Step, StoreRequest};
use note_sync::models::{Command, Note, Reply, WebSocketMessage, WebSocketResponse};
use note_sync::session::{AuthPolicy, CloseFrame, Handshake, Inbound, Opening, Phase, Session};

fn handshake(token: Option<&str>, username: Option<&str>, credential: Option<&str>) -> Handshake {
    Handshake {
        token: token.map(|s| s.to_string()),
        username: username.map(|s| s.to_string()),
        credential: credential.map(|s| s.to_string()),
    }
}

fn unauthorized() -> Opening {
    Opening::Reject(CloseFrame { code: 401, reason: "Unauthorized".to_string() })
}

fn active() -> Session {
    let (session, opening) = Session::connect(&AuthPolicy::Open, handshake(None, None, None));
    assert_eq!(opening, Opening::Admit);
    session
}

#[test]
fn malformed_frame_gets_400_and_stays_open() {
    let mut session = active();
    let diagnostic = "unknown variant `Frobnicate`, expected one of `Get`, `Set`, `Delete` at line 1 column 24";
    let step = session.receive(Inbound::Malformed(diagnostic.to_string()));
    assert_eq!(
        step,
        Some(Step::Done(Reply::Status(WebSocketResponse { response: 400, message: Some(diagnostic.to_string()) })))
    );
    assert_eq!(session.phase, Phase::Active);
    let next = session.receive(Inbound::Request(WebSocketMessage { command: Command::Get, note: None }));
    assert_eq!(
        next,
        Some(Step::Await { pending: Pending::Keys, request: StoreRequest::ListKeys { pattern: "note:*".to_string() } })
    );
}

#[test]
fn non_text_frame_gets_bare_400() {
    let mut session = active();
    let step = session.receive(Inbound::NonText);
    assert_eq!(step, Some(Step::Done(Reply::Status(WebSocketResponse { response: 400, message: None }))));
    assert_eq!(session.phase, Phase::Active);
}

#[test]
fn missing_credential_closes_before_commands() {
    let (mut session, opening) = Session::connect(&AuthPolicy::StoredToken, handshake(None, Some("alice"), None));
    assert_eq!(opening, unauthorized());
    assert_eq!(session.phase, Phase::Closed);
    let step = session.receive(Inbound::Request(WebSocketMessage { command: Command::Get, note: None }));
    assert_eq!(step, None);
}

#[test]
fn stored_token_is_looked_up_per_user() {
    let (mut session, opening) =
        Session::connect(&AuthPolicy::StoredToken, handshake(None, Some("alice"), Some("secret")));
    assert_eq!(session.phase, Phase::Unauthenticated);
    assert_eq!(
        opening,
        Opening::LookupToken {
            key: "user:alice".to_string(),
            field: "wsToken".to_string(),
            credential: "secret".to_string(),
        }
    );
    assert_eq!(session.receive(Inbound::NonText), None);
    let outcome = session.complete_auth(&"secret".to_string(), Some("secret".to_string()));
    assert_eq!(outcome, Opening::Admit);
    assert_eq!(session.phase, Phase::Active);
}

#[test]
fn stored_token_mismatch_or_absence_rejects_alike() {
    for stored in [Some("other".to_string()), None] {
        let (mut session, _) =
            Session::connect(&AuthPolicy::StoredToken, handshake(None, Some("bob"), Some("secret")));
        let outcome = session.complete_auth(&"secret".to_string(), stored);
        assert_eq!(outcome, unauthorized());
        assert_eq!(session.phase, Phase::Closed);
    }
}

#[test]
fn shared_secret_admits_only_matching_token() {
    let policy = AuthPolicy::SharedSecret("tok".to_string());
    let (good, opening) = Session::connect(&policy, handshake(Some("tok"), None, None));
    assert_eq!(opening, Opening::Admit);
    assert_eq!(good.phase, Phase::Active);
    for presented in [Some("bad"), None] {
        let (bad, opening) = Session::connect(&policy, handshake(presented, None, None));
        assert_eq!(opening, unauthorized());
        assert_eq!(bad.phase, Phase::Closed);
    }
}

#[test]
fn ended_session_serves_nothing() {
    let mut session = active();
    session.end();
    assert_eq!(session.phase, Phase::Closed);
    let note = Note { id: "n".to_string(), content: None, updated: None };
    let step = session.receive(Inbound::Request(WebSocketMessage { command: Command::Delete, note: Some(note) }));
    assert_eq!(step, None);
}
