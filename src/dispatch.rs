//! The command dispatcher. Each command becomes a short exchange with the
//! key-value store: the dispatcher names the store operation to perform, the
//! caller performs it and hands the outcome back, until a reply is ready.
use vstd::prelude::*;

use crate::keys::{make_note_key, note_key, note_pattern, note_prefix};
use crate::models::{opt_note_view, status_reply, Command, Note, NoteView, Reply, ReplyView, WebSocketMessage};

verus! {

/// A store operation the dispatcher asks for.
#[derive(Clone, Debug, PartialEq, Eq)]
pub enum StoreRequest {
    /// List every key that matches `pattern`.
    ListKeys { pattern: String },
    /// Read and decode the note stored under `key`.
    Fetch { key: String },
    /// Encode `note` and write it under `key`, replacing any earlier value.
    Put { key: String, note: Note },
    /// Remove `key`, reporting how many keys were removed.
    Remove { key: String },
}

/// The mathematical value of a [`StoreRequest`].
pub enum RequestView {
    ListKeys { pattern: Seq<char> },
    Fetch { key: Seq<char> },
    Put { key: Seq<char>, note: NoteView },
    Remove { key: Seq<char> },
}

impl View for StoreRequest {
    type V = RequestView;

    open spec fn view(&self) -> RequestView {
        match self {
            StoreRequest::ListKeys { pattern } => RequestView::ListKeys { pattern: pattern@ },
            StoreRequest::Fetch { key } => RequestView::Fetch { key: key@ },
            StoreRequest::Put { key, note } => RequestView::Put { key: key@, note: note@ },
            StoreRequest::Remove { key } => RequestView::Remove { key: key@ },
        }
    }
}

/// What the store answered to a [`StoreRequest`].
#[derive(Clone, Debug, PartialEq, Eq)]
pub enum StoreReply {
    /// The keys that a listing found, in the store's order.
    Keys(Vec<String>),
    /// The decoded note that a fetch read.
    Fetched(Note),
    /// A write succeeded.
    Written,
    /// A removal succeeded and removed this many keys.
    Removed(u64),
    /// The operation failed: the store was unreachable, or a value could not
    /// be encoded or decoded.
    Failed,
}

/// The mathematical value of a [`StoreReply`].
pub enum StoreReplyView {
    Keys(Seq<Seq<char>>),
    Fetched(NoteView),
    Written,
    Removed(nat),
    Failed,
}

/// The characters of each string in `v`.
pub open spec fn strings_view(v: Seq<String>) -> Seq<Seq<char>> {
    v.map_values(|s: String| s@)
}

/// The value of each note in `v`.
pub open spec fn notes_view(v: Seq<Note>) -> Seq<NoteView> {
    v.map_values(|n: Note| n@)
}

impl View for StoreReply {
    type V = StoreReplyView;

    open spec fn view(&self) -> StoreReplyView {
        match self {
            StoreReply::Keys(ks) => StoreReplyView::Keys(strings_view(ks@)),
            StoreReply::Fetched(n) => StoreReplyView::Fetched(n@),
            StoreReply::Written => StoreReplyView::Written,
            StoreReply::Removed(c) => StoreReplyView::Removed(*c as nat),
            StoreReply::Failed => StoreReplyView::Failed,
        }
    }
}

/// The store operation a command waits on.
#[derive(Clone, Debug, PartialEq, Eq)]
pub enum Pending {
    /// A `Get` waits for the list of note keys.
    Keys,
    /// A `Get` has `notes`, fetched for the first keys of `keys`, and waits
    /// for the value of the next key.
    Values { keys: Vec<String>, notes: Vec<Note> },
    /// A `Set` waits for its write.
    Save,
    /// A `Delete` waits for its removal.
    Delete,
}

/// The mathematical value of a [`Pending`].
pub enum PendingView {
    Keys,
    Values { keys: Seq<Seq<char>>, notes: Seq<NoteView> },
    Save,
    Delete,
}

impl View for Pending {
    type V = PendingView;

    open spec fn view(&self) -> PendingView {
        match self {
            Pending::Keys => PendingView::Keys,
            Pending::Values { keys, notes } => PendingView::Values {
                keys: strings_view(keys@),
                notes: notes_view(notes@),
            },
            Pending::Save => PendingView::Save,
            Pending::Delete => PendingView::Delete,
        }
    }
}

impl PendingView {
    /// A listing in progress always has a key left to fetch.
    pub open spec fn wf(self) -> bool {
        match self {
            PendingView::Values { keys, notes } => notes.len() < keys.len(),
            _ => true,
        }
    }
}

/// Where a command stands: waiting on a store operation, or finished with a
/// reply for the client.
#[derive(Clone, Debug, PartialEq, Eq)]
pub enum Step {
    Await { pending: Pending, request: StoreRequest },
    Done(Reply),
}

/// The mathematical value of a [`Step`].
pub enum StepView {
    Await { pending: PendingView, request: RequestView },
    Done(ReplyView),
}

impl View for Step {
    type V = StepView;

    open spec fn view(&self) -> StepView {
        match self {
            Step::Await { pending, request } => StepView::Await { pending: pending@, request: request@ },
            Step::Done(r) => StepView::Done(r@),
        }
    }
}

impl StepView {
    /// A step that waits does so on a well-formed operation.
    pub open spec fn wf(self) -> bool {
        match self {
            StepView::Await { pending, .. } => pending.wf(),
            StepView::Done(_) => true,
        }
    }
}

/// Message of a failed `Get`.
pub open spec fn get_error_text() -> Seq<char> {
    "An error occurred while retrieving the notes"@
}

/// Message of a failed `Set`.
pub open spec fn set_error_text() -> Seq<char> {
    "An error occurred while saving the note"@
}

/// Message of a failed `Delete`.
pub open spec fn delete_error_text() -> Seq<char> {
    "An error occurred while deleting the note"@
}

/// Message of a `Delete` whose note is absent.
pub open spec fn not_found_text() -> Seq<char> {
    "Note not found"@
}

/// Message of a `Set` or `Delete` that carries no note.
pub open spec fn note_required_text() -> Seq<char> {
    "Note is required"@
}

/// A status reply with a message.
pub open spec fn status_with(code: u16, message: Seq<char>) -> ReplyView {
    ReplyView::Status { code: code, message: Some(message) }
}

/// The plain success reply: 200 with no message.
pub open spec fn ok_reply() -> ReplyView {
    ReplyView::Status { code: 200, message: None }
}

/// The pattern that lists every note key.
pub open spec fn notes_pattern() -> Seq<char> {
    note_prefix().push('*')
}

/// How a `Get` begins: list the note keys.
pub open spec fn get_start() -> StepView {
    StepView::Await { pending: PendingView::Keys, request: RequestView::ListKeys { pattern: notes_pattern() } }
}

/// How a `Set` of `note` begins: write it under its key.
pub open spec fn set_start(note: NoteView) -> StepView {
    StepView::Await { pending: PendingView::Save, request: RequestView::Put { key: note_key(note.id), note: note } }
}

/// How a `Delete` of `id` begins: remove its key.
pub open spec fn delete_start(id: Seq<char>) -> StepView {
    StepView::Await { pending: PendingView::Delete, request: RequestView::Remove { key: note_key(id) } }
}

/// How a decoded request begins. `Set` and `Delete` without a note are
/// answered at once with 400 and never reach the store.
pub open spec fn message_start(command: Command, note: Option<NoteView>) -> StepView {
    match command {
        Command::Get => get_start(),
        Command::Put => match note {
            Some(n) => set_start(n),
            None => StepView::Done(status_with(400, note_required_text())),
        },
        Command::Delete => match note {
            Some(n) => delete_start(n.id),
            None => StepView::Done(status_with(400, note_required_text())),
        },
    }
}

/// The step that follows once the store answers `reply` to what `pending`
/// waits on.
pub open spec fn next(pending: PendingView, reply: StoreReplyView) -> StepView {
    match pending {
        PendingView::Keys => match reply {
            StoreReplyView::Keys(keys) => if keys.len() == 0 {
                StepView::Done(ReplyView::Listing(Seq::empty()))
            } else {
                StepView::Await {
                    pending: PendingView::Values { keys: keys, notes: Seq::empty() },
                    request: RequestView::Fetch { key: keys[0] },
                }
            },
            _ => StepView::Done(status_with(500, get_error_text())),
        },
        PendingView::Values { keys, notes } => match reply {
            StoreReplyView::Fetched(n) => if notes.len() + 1 >= keys.len() {
                StepView::Done(ReplyView::Listing(notes.push(n)))
            } else {
                StepView::Await {
                    pending: PendingView::Values { keys: keys, notes: notes.push(n) },
                    request: RequestView::Fetch { key: keys[notes.len() as int + 1] },
                }
            },
            _ => StepView::Done(status_with(500, get_error_text())),
        },
        PendingView::Save => match reply {
            StoreReplyView::Written => StepView::Done(ok_reply()),
            _ => StepView::Done(status_with(500, set_error_text())),
        },
        PendingView::Delete => match reply {
            StoreReplyView::Removed(count) => if count == 0 {
                StepView::Done(status_with(404, not_found_text()))
            } else {
                StepView::Done(ok_reply())
            },
            _ => StepView::Done(status_with(500, delete_error_text())),
        },
    }
}

fn message_reply(code: u16, text: &str) -> (r: Reply)
    ensures
        r@ == status_with(code, text@),
{
    status_reply(code, Some(String::from_str(text)))
}

/// Begins a `Get`: all notes are listed by enumerating the note keys and
/// fetching each value.
pub fn handle_get_command() -> (r: Step)
    ensures
        r@ == get_start(),
        r@.wf(),
{
    Step::Await { pending: Pending::Keys, request: StoreRequest::ListKeys { pattern: note_pattern() } }
}

/// Begins a `Set`: the note is written under its key, replacing what was
/// there.
pub fn handle_set_command(note: Note) -> (r: Step)
    ensures
        r@ == set_start(note@),
        r@.wf(),
{
    let key = make_note_key(note.id.as_str());
    Step::Await { pending: Pending::Save, request: StoreRequest::Put { key, note } }
}

/// Begins a `Delete` of the note `id`.
pub fn handle_delete_command(id: String) -> (r: Step)
    ensures
        r@ == delete_start(id@),
        r@.wf(),
{
    let key = make_note_key(id.as_str());
    Step::Await { pending: Pending::Delete, request: StoreRequest::Remove { key } }
}

/// Begins the command of a decoded request.
pub fn handle_websocket_message(message: WebSocketMessage) -> (r: Step)
    ensures
        r@ == message_start(message.command, opt_note_view(message.note)),
        r@.wf(),
{
    match message.command {
        Command::Get => handle_get_command(),
        Command::Put => match message.note {
            Some(note) => handle_set_command(note),
            None => Step::Done(message_reply(400, "Note is required")),
        },
        Command::Delete => match message.note {
            Some(note) => handle_delete_command(note.id),
            None => Step::Done(message_reply(400, "Note is required")),
        },
    }
}

/// Continues a command once the store has answered what it waited on.
pub fn on_store_reply(pending: Pending, reply: StoreReply) -> (r: Step)
    requires
        pending@.wf(),
    ensures
        r@ == next(pending@, reply@),
        r@.wf(),
{
    match pending {
        Pending::Keys => match reply {
            StoreReply::Keys(keys) => {
                if keys.len() == 0 {
                    let r = Step::Done(Reply::Listing(Vec::new()));
                    assert(notes_view(Seq::<Note>::empty()) =~= Seq::empty());
                    r
                } else {
                    let key = keys[0].clone();
                    let notes: Vec<Note> = Vec::new();
                    assert(notes_view(notes@) =~= Seq::empty());
                    Step::Await { pending: Pending::Values { keys, notes }, request: StoreRequest::Fetch { key } }
                }
            },
            _ => Step::Done(message_reply(500, "An error occurred while retrieving the notes")),
        },
        Pending::Values { keys, mut notes } => match reply {
            StoreReply::Fetched(n) => {
                let ghost before = notes@;
                notes.push(n);
                assert(notes_view(notes@) =~= notes_view(before).push(n@));
                if notes.len() >= keys.len() {
                    Step::Done(Reply::Listing(notes))
                } else {
                    let key = keys[notes.len()].clone();
                    Step::Await { pending: Pending::Values { keys, notes }, request: StoreRequest::Fetch { key } }
                }
            },
            _ => Step::Done(message_reply(500, "An error occurred while retrieving the notes")),
        },
        Pending::Save => match reply {
            StoreReply::Written => status_step(200),
            _ => Step::Done(message_reply(500, "An error occurred while saving the note")),
        },
        Pending::Delete => match reply {
            StoreReply::Removed(count) => {
                if count == 0 {
                    Step::Done(message_reply(404, "Note not found"))
                } else {
                    status_step(200)
                }
            },
            _ => Step::Done(message_reply(500, "An error occurred while deleting the note")),
        },
    }
}

fn status_step(code: u16) -> (r: Step)
    ensures
        r@ == StepView::Done((ReplyView::Status { code: code, message: None })),
{
    Step::Done(status_reply(code, None))
}

} // verus!
