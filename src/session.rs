//! One client connection: the authentication that admits or rejects it,
//! then the loop that turns each inbound frame into a command.
use vstd::prelude::*;

use crate::dispatch::{handle_websocket_message, message_start, status_with, Step, StepView};
use crate::keys::{make_user_key, user_key};
use crate::models::{opt_note_view, opt_view, status_reply, ReplyView, WebSocketMessage};

verus! {

/// How a connection must prove who it is before its commands are served.
#[derive(Clone, Debug, PartialEq, Eq)]
pub enum AuthPolicy {
    /// Every connection is admitted.
    Open,
    /// The client presents this process-wide token as a request parameter.
    SharedSecret(String),
    /// The client names a user and presents a credential out of band; it must
    /// equal the token stored for that user (field `wsToken` of the record
    /// under `user:<name>`).
    StoredToken,
}

/// What a client presented when it connected.
#[derive(Clone, Debug, PartialEq, Eq)]
pub struct Handshake {
    pub token: Option<String>,
    pub username: Option<String>,
    pub credential: Option<String>,
}

/// The frame that ends a rejected connection.
#[derive(Clone, Debug, PartialEq, Eq)]
pub struct CloseFrame {
    pub code: u16,
    pub reason: String,
}

/// How authentication answers a new connection.
#[derive(Clone, Debug, PartialEq, Eq)]
pub enum Opening {
    /// Serve the connection's commands.
    Admit,
    /// Send this close frame and end the connection.
    Reject(CloseFrame),
    /// Read field `field` of the record under `key`, then hand it to
    /// [`Session::complete_auth`] with `credential`.
    LookupToken { key: String, field: String, credential: String },
}

/// The mathematical value of an [`Opening`].
pub enum OpeningView {
    Admit,
    Reject { code: u16, reason: Seq<char> },
    LookupToken { key: Seq<char>, field: Seq<char>, credential: Seq<char> },
}

impl View for Opening {
    type V = OpeningView;

    open spec fn view(&self) -> OpeningView {
        match self {
            Opening::Admit => OpeningView::Admit,
            Opening::Reject(f) => OpeningView::Reject { code: f.code, reason: f.reason@ },
            Opening::LookupToken { key, field, credential } => OpeningView::LookupToken {
                key: key@,
                field: field@,
                credential: credential@,
            },
        }
    }
}

/// Where a connection stands.
#[derive(PartialEq, Eq, Structural, Clone, Copy, Debug)]
pub enum Phase {
    /// Waiting for a stored token to be checked.
    Unauthenticated,
    /// Serving commands.
    Active,
    /// Ended; nothing more is served.
    Closed,
}

/// An inbound frame, as the transport and the decoder saw it.
#[derive(Clone, Debug, PartialEq, Eq)]
pub enum Inbound {
    /// A text frame that decoded to a request.
    Request(WebSocketMessage),
    /// A text frame that did not decode; the decoder's diagnostic.
    Malformed(String),
    /// A frame that is not text.
    NonText,
}

/// The state of one connection.
#[derive(Clone, Debug, PartialEq, Eq)]
pub struct Session {
    pub phase: Phase,
}

/// Reason of the close frame that rejects a connection.
pub open spec fn unauthorized_text() -> Seq<char> {
    "Unauthorized"@
}

/// Field of a user's record that holds the connection token.
pub open spec fn token_field_text() -> Seq<char> {
    "wsToken"@
}

/// The rejection every failed check ends in: 401, "Unauthorized".
pub open spec fn rejected() -> OpeningView {
    OpeningView::Reject { code: 401, reason: unauthorized_text() }
}

/// The phase and answer of authentication for a new connection.
pub open spec fn connect_outcome(
    policy: AuthPolicy,
    token: Option<Seq<char>>,
    username: Option<Seq<char>>,
    credential: Option<Seq<char>>,
) -> (Phase, OpeningView) {
    match policy {
        AuthPolicy::Open => (Phase::Active, OpeningView::Admit),
        AuthPolicy::SharedSecret(expected) => if token == Some(expected@) {
            (Phase::Active, OpeningView::Admit)
        } else {
            (Phase::Closed, rejected())
        },
        AuthPolicy::StoredToken => match (username, credential) {
            (Some(name), Some(c)) => (
                Phase::Unauthenticated,
                OpeningView::LookupToken { key: user_key(name), field: token_field_text(), credential: c },
            ),
            _ => (Phase::Closed, rejected()),
        },
    }
}

/// What an active connection does with a frame: a frame that is not text
/// gets 400 with no message, one that does not decode gets 400 with the
/// diagnostic, a request begins its command.
pub open spec fn frame_start(frame: Inbound) -> StepView {
    match frame {
        Inbound::NonText => StepView::Done(ReplyView::Status { code: 400, message: None }),
        Inbound::Malformed(d) => StepView::Done(status_with(400, d@)),
        Inbound::Request(m) => message_start(m.command, opt_note_view(m.note)),
    }
}

/// The next phase and the command begun, if any, when a frame arrives in
/// `phase`. Only an active connection serves frames, and serving one never
/// ends it.
pub open spec fn receive_outcome(phase: Phase, frame: Inbound) -> (Phase, Option<StepView>) {
    if phase == Phase::Active {
        (Phase::Active, Some(frame_start(frame)))
    } else {
        (phase, None)
    }
}

fn reject() -> (r: Opening)
    ensures
        r@ == rejected(),
{
    Opening::Reject(CloseFrame { code: 401, reason: String::from_str("Unauthorized") })
}

impl Session {
    /// Authenticates a new connection.
    pub fn connect(policy: &AuthPolicy, handshake: Handshake) -> (r: (Session, Opening))
        ensures
            (r.0.phase, r.1@) == connect_outcome(
                *policy,
                opt_view(handshake.token),
                opt_view(handshake.username),
                opt_view(handshake.credential),
            ),
    {
        match policy {
            AuthPolicy::Open => (Session { phase: Phase::Active }, Opening::Admit),
            AuthPolicy::SharedSecret(expected) => {
                let admitted = match &handshake.token {
                    Some(t) => *t == *expected,
                    None => false,
                };
                if admitted {
                    (Session { phase: Phase::Active }, Opening::Admit)
                } else {
                    (Session { phase: Phase::Closed }, reject())
                }
            },
            AuthPolicy::StoredToken => match (handshake.username, handshake.credential) {
                (Some(name), Some(c)) => {
                    let key = make_user_key(name.as_str());
                    let field = String::from_str("wsToken");
                    (Session { phase: Phase::Unauthenticated }, Opening::LookupToken { key, field, credential: c })
                },
                _ => (Session { phase: Phase::Closed }, reject()),
            },
        }
    }

    /// Finishes a stored-token check: the connection is admitted exactly when
    /// a token is stored and equals the presented credential; otherwise it is
    /// rejected, alike for all causes.
    pub fn complete_auth(&mut self, credential: &String, stored: Option<String>) -> (r: Opening)
        requires
            old(self).phase == Phase::Unauthenticated,
        ensures
            stored.is_some() && stored.unwrap()@ == credential@ ==> final(self).phase == Phase::Active && r@ == OpeningView::Admit,
            !(stored.is_some() && stored.unwrap()@ == credential@) ==> final(self).phase == Phase::Closed && r@ == rejected(),
    {
        let admitted = match &stored {
            Some(t) => *t == *credential,
            None => false,
        };
        if admitted {
            self.phase = Phase::Active;
            Opening::Admit
        } else {
            self.phase = Phase::Closed;
            reject()
        }
    }

    /// Takes one inbound frame. An active connection begins the command it
    /// asks for, or answers 400, and stays active; any other connection
    /// serves nothing.
    pub fn receive(&mut self, frame: Inbound) -> (r: Option<Step>)
        ensures
            (final(self).phase, match r {
                Some(s) => Some(s@),
                None => None,
            }) == receive_outcome(old(self).phase, frame),
            r matches Some(s) ==> s@.wf(),
    {
        if self.phase != Phase::Active {
            return None;
        }
        match frame {
            Inbound::NonText => Some(Step::Done(status_reply(400, None))),
            Inbound::Malformed(d) => Some(Step::Done(status_reply(400, Some(d)))),
            Inbound::Request(m) => Some(handle_websocket_message(m)),
        }
    }

    /// The connection ended: the stream closed or the transport failed.
    pub fn end(&mut self)
        ensures
            final(self).phase == Phase::Closed,
    {
        self.phase = Phase::Closed;
    }
}

/// A connection that must present a stored per-user token and presents no
/// credential is closed with 401 at once, before any command, and serves no
/// frame afterwards, so no note is ever read for it.
pub proof fn lemma_no_credential_closed(
    token: Option<Seq<char>>,
    username: Option<Seq<char>>,
    frames: Seq<Inbound>,
)
    ensures
        connect_outcome(AuthPolicy::StoredToken, token, username, None) == (Phase::Closed, rejected()),
        forall|i: int| 0 <= i < frames.len() ==>
            #[trigger] receive_outcome(Phase::Closed, frames[i]) == (Phase::Closed, None::<StepView>),
{
}

/// A frame that does not decode is answered with 400 and its diagnostic,
/// and the connection stays open for the next frame.
pub proof fn lemma_malformed_keeps_open(diagnostic: String)
    ensures
        receive_outcome(Phase::Active, Inbound::Malformed(diagnostic)) == (
            Phase::Active,
            Some(StepView::Done(status_with(400, diagnostic@))),
        ),
{
}

} // verus!
