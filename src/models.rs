//! Values that travel over a connection: notes, commands, request and
//! response envelopes.
use vstd::prelude::*;

verus! {

/// A stored note. `id` addresses it; `content` and `updated` are optional and
/// carried verbatim.
#[derive(Clone, Debug, PartialEq, Eq)]
pub struct Note {
    pub id: String,
    pub content: Option<String>,
    pub updated: Option<String>,
}

/// The mathematical value of a [`Note`].
pub struct NoteView {
    pub id: Seq<char>,
    pub content: Option<Seq<char>>,
    pub updated: Option<Seq<char>>,
}

/// The characters of an optional string.
pub open spec fn opt_view(s: Option<String>) -> Option<Seq<char>> {
    match s {
        Some(t) => Some(t@),
        None => None,
    }
}

/// The value of an optional note.
pub open spec fn opt_note_view(n: Option<Note>) -> Option<NoteView> {
    match n {
        Some(t) => Some(t@),
        None => None,
    }
}

impl View for Note {
    type V = NoteView;

    open spec fn view(&self) -> NoteView {
        NoteView { id: self.id@, content: opt_view(self.content), updated: opt_view(self.updated) }
    }
}

/// The action a request asks for: list the notes, store one (wire tag
/// `Set`), or remove one.
#[derive(PartialEq, Eq, Structural, Clone, Copy, Debug)]
pub enum Command {
    Get,
    Put,
    Delete,
}

/// An inbound request: a command and, for `Set` and `Delete`, the note it
/// concerns.
#[derive(Clone, Debug, PartialEq, Eq)]
pub struct WebSocketMessage {
    pub command: Command,
    pub note: Option<Note>,
}

/// A status reply: a code and an optional human-readable message.
#[derive(Clone, Debug, PartialEq, Eq)]
pub struct WebSocketResponse {
    pub response: u16,
    pub message: Option<String>,
}

/// The mathematical value of an outbound reply.
pub enum ReplyView {
    Status { code: u16, message: Option<Seq<char>> },
    Listing(Seq<NoteView>),
}

/// An outbound reply: a status, or for `Get` the list of stored notes.
#[derive(Clone, Debug, PartialEq, Eq)]
pub enum Reply {
    Status(WebSocketResponse),
    Listing(Vec<Note>),
}

impl View for Reply {
    type V = ReplyView;

    open spec fn view(&self) -> ReplyView {
        match self {
            Reply::Status(r) => ReplyView::Status { code: r.response, message: opt_view(r.message) },
            Reply::Listing(notes) => ReplyView::Listing(notes@.map_values(|n: Note| n@)),
        }
    }
}

/// Builds a status reply.
pub fn status_reply(code: u16, message: Option<String>) -> (r: Reply)
    ensures
        r@ == (ReplyView::Status { code: code, message: opt_view(message) }),
{
    Reply::Status(WebSocketResponse { response: code, message })
}

} // verus!
