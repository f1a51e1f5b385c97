use std::collections::BTreeMap;

use note_sync::dispatch::{
    handle_delete_command, handle_get_command, handle_set_command, handle_websocket_message,
    on_store_reply, Pending, Step, StoreReply, StoreRequest,
};
use note_sync::index;
use note_sync::models::{Command, Note, Reply, WebSocketMessage, WebSocketResponse};

fn note(id: &str, content: &str, updated: Option<&str>) -> Note {
    Note {
        id: id.to_string(),
        content: Some(content.to_string()),
        updated: updated.map(|u| u.to_string()),
    }
}

fn status(code: u16, message: Option<&str>) -> Reply {
    Reply::Status(WebSocketResponse { response: code, message: message.map(|m| m.to_string()) })
}

/// Carries out each store request against an in-memory map until the
/// command has its reply.
fn drive(store: &mut BTreeMap<String, Note>, first: Step) -> Reply {
    let mut step = first;
    loop {
        match step {
            Step::Done(reply) => return reply,
            Step::Await { pending, request } => {
                let answer = match request {
                    StoreRequest::ListKeys { pattern } => {
                        assert_eq!(pattern, "note:*");
                        StoreReply::Keys(store.keys().filter(|k| k.starts_with("note:")).cloned().collect())
                    }
                    StoreRequest::Fetch { key } => match store.get(&key) {
                        Some(n) => StoreReply::Fetched(n.clone()),
                        None => StoreReply::Failed,
                    },
                    StoreRequest::Put { key, note } => {
                        store.insert(key, note);
                        StoreReply::Written
                    }
                    StoreRequest::Remove { key } => match store.remove(&key) {
                        Some(_) => StoreReply::Removed(1),
                        None => StoreReply::Removed(0),
                    },
                };
                step = on_store_reply(pending, answer);
            }
        }
    }
}

fn request(command: Command, note: Option<Note>) -> WebSocketMessage {
    WebSocketMessage { command, note }
}

#[test]
fn index_greets() {
    assert_eq!(index(), "Hello, world!");
}

#[test]
fn set_get_delete_scenario() {
    let mut store = BTreeMap::new();
    let n1 = note("n1", "hi", Some("t0"));
    let set = handle_websocket_message(request(Command::Put, Some(n1.clone())));
    match &set {
        Step::Await { pending, request } => {
            assert_eq!(*pending, Pending::Save);
            assert_eq!(*request, StoreRequest::Put { key: "note:n1".to_string(), note: n1.clone() });
        }
        Step::Done(_) => panic!("a set must write to the store"),
    }
    assert_eq!(drive(&mut store, set), status(200, None));
    let get = handle_websocket_message(request(Command::Get, None));
    assert_eq!(drive(&mut store, get), Reply::Listing(vec![n1]));
    let delete_note = Note { id: "n1".to_string(), content: None, updated: None };
    let delete = handle_websocket_message(request(Command::Delete, Some(delete_note.clone())));
    assert_eq!(drive(&mut store, delete), status(200, None));
    let again = handle_websocket_message(request(Command::Delete, Some(delete_note)));
    assert_eq!(drive(&mut store, again), status(404, Some("Note not found")));
    assert!(store.is_empty());
}

#[test]
fn set_then_get_lists_note() {
    let mut store = BTreeMap::new();
    store.insert("note:other".to_string(), note("other", "x", None));
    let n = note("abc", "body", None);
    assert_eq!(drive(&mut store, handle_set_command(n.clone())), status(200, None));
    match drive(&mut store, handle_get_command()) {
        Reply::Listing(notes) => {
            assert_eq!(notes.len(), 2);
            assert!(notes.iter().any(|m| m.id == "abc" && m.content == Some("body".to_string())));
        }
        other => panic!("expected a listing, got {:?}", other),
    }
}

#[test]
fn delete_absent_is_not_found_twice() {
    let mut store = BTreeMap::new();
    store.insert("note:kept".to_string(), note("kept", "x", None));
    let first = drive(&mut store, handle_delete_command("missing".to_string()));
    let second = drive(&mut store, handle_delete_command("missing".to_string()));
    assert_eq!(first, status(404, Some("Note not found")));
    assert_eq!(second, status(404, Some("Note not found")));
    assert_eq!(store.len(), 1);
}

#[test]
fn second_set_overwrites() {
    let mut store = BTreeMap::new();
    drive(&mut store, handle_set_command(note("a", "old", Some("t1"))));
    drive(&mut store, handle_set_command(note("a", "new", None)));
    assert_eq!(drive(&mut store, handle_get_command()), Reply::Listing(vec![note("a", "new", None)]));
}

#[test]
fn missing_note_is_rejected_without_store_access() {
    for command in [Command::Put, Command::Delete] {
        let step = handle_websocket_message(request(command, None));
        assert_eq!(step, Step::Done(status(400, Some("Note is required"))));
    }
}

#[test]
fn get_on_empty_store_lists_nothing() {
    let mut store = BTreeMap::new();
    assert_eq!(drive(&mut store, handle_get_command()), Reply::Listing(vec![]));
}

#[test]
fn get_fails_when_listing_fails() {
    let step = on_store_reply(Pending::Keys, StoreReply::Failed);
    assert_eq!(step, Step::Done(status(500, Some("An error occurred while retrieving the notes"))));
}

#[test]
fn get_fails_without_partial_result() {
    let keys = vec!["note:a".to_string(), "note:b".to_string()];
    let step = on_store_reply(Pending::Keys, StoreReply::Keys(keys.clone()));
    let pending = match step {
        Step::Await { pending, request } => {
            assert_eq!(request, StoreRequest::Fetch { key: "note:a".to_string() });
            pending
        }
        Step::Done(_) => panic!("a listing must fetch each key"),
    };
    let step = on_store_reply(pending, StoreReply::Fetched(note("a", "1", None)));
    let pending = match step {
        Step::Await { pending, request } => {
            assert_eq!(request, StoreRequest::Fetch { key: "note:b".to_string() });
            pending
        }
        Step::Done(_) => panic!("the second key is still to fetch"),
    };
    let step = on_store_reply(pending, StoreReply::Failed);
    assert_eq!(step, Step::Done(status(500, Some("An error occurred while retrieving the notes"))));
}

#[test]
fn set_fails_when_write_fails() {
    let step = on_store_reply(Pending::Save, StoreReply::Failed);
    assert_eq!(step, Step::Done(status(500, Some("An error occurred while saving the note"))));
}

#[test]
fn delete_fails_when_store_fails() {
    let step = on_store_reply(Pending::Delete, StoreReply::Failed);
    assert_eq!(step, Step::Done(status(500, Some("An error occurred while deleting the note"))));
}

#[test]
fn delete_uses_derived_key() {
    let step = handle_delete_command("x y".to_string());
    assert_eq!(
        step,
        Step::Await { pending: Pending::Delete, request: StoreRequest::Remove { key: "note:x y".to_string() } }
    );
    assert_eq!(on_store_reply(Pending::Delete, StoreReply::Removed(3)), Step::Done(status(200, None)));
}

#[test]
fn set_with_empty_id_is_stored() {
    let step = handle_set_command(note("", "c", None));
    assert_eq!(
        step,
        Step::Await {
            pending: Pending::Save,
            request: StoreRequest::Put { key: "note:".to_string(), note: note("", "c", None) },
        }
    );
}
