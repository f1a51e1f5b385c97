//! Core of a note-synchronisation service: the wire data model, the store key
//! namespace, the command dispatcher and the per-connection session, each as
//! pure decision logic that a transport and a key-value client drive.
use vstd::prelude::*;

pub mod models;
pub mod keys;
pub mod dispatch;
pub mod store;
pub mod session;

verus! {

/// Body of the plain greeting route served beside the note protocol.
pub fn index() -> (r: &'static str)
    ensures
        r@ == "Hello, world!"@,
{
    "Hello, world!"
}

} // verus!
