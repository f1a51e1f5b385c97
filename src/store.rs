//! A model of the key-value store that the dispatcher talks to, and what
//! follows for whole commands run against it. The model is the collaborator's
//! contract: writes replace, removals report whether the key was there, reads
//! see the latest write, and a listing enumerates the note keys once each in
//! an order the store picks.
use vstd::prelude::*;

use crate::dispatch::{
    delete_start, get_start, message_start, next, not_found_text, note_required_text, ok_reply,
    set_start, status_with, RequestView, StepView, StoreReplyView,
};
use crate::keys::{is_note_key, lemma_note_key_injective, note_key};
use crate::models::{Command, NoteView, ReplyView};

verus! {

/// The notes a store holds, by key.
pub type StoreView = Map<Seq<char>, NoteView>;

/// `keys` lists each note key of `store` exactly once.
pub open spec fn enumerates(store: StoreView, keys: Seq<Seq<char>>) -> bool {
    &&& keys.no_duplicates()
    &&& forall|k: Seq<char>| #[trigger] keys.contains(k) <==> (store.contains_key(k) && is_note_key(k))
}

/// Every note sits under the key derived from its own identifier.
pub open spec fn consistent(store: StoreView) -> bool {
    forall|k: Seq<char>| #[trigger] store.contains_key(k) ==> k == note_key(store[k].id)
}

/// What the store answers to `request`; `keys` is the order in which it
/// enumerates its note keys.
pub open spec fn answer(store: StoreView, keys: Seq<Seq<char>>, request: RequestView) -> StoreReplyView {
    match request {
        RequestView::ListKeys { .. } => StoreReplyView::Keys(keys),
        RequestView::Fetch { key } => if store.contains_key(key) {
            StoreReplyView::Fetched(store[key])
        } else {
            StoreReplyView::Failed
        },
        RequestView::Put { .. } => StoreReplyView::Written,
        RequestView::Remove { key } => StoreReplyView::Removed(if store.contains_key(key) { 1 } else { 0 }),
    }
}

/// The store after it carried out `request`.
pub open spec fn effect(store: StoreView, request: RequestView) -> StoreView {
    match request {
        RequestView::Put { key, note } => store.insert(key, note),
        RequestView::Remove { key } => store.remove(key),
        _ => store,
    }
}

/// Runs a command from `step` against the store, at most `fuel` store
/// operations deep: the final store and the reply, or `None` when the fuel
/// ran out first.
pub open spec fn run(store: StoreView, keys: Seq<Seq<char>>, step: StepView, fuel: nat) -> Option<(StoreView, ReplyView)>
    decreases fuel,
{
    match step {
        StepView::Done(reply) => Some((store, reply)),
        StepView::Await { pending, request } => if fuel == 0 {
            None
        } else {
            run(effect(store, request), keys, next(pending, answer(store, keys, request)), (fuel - 1) as nat)
        },
    }
}

/// The notes a `Get` lists: the value under each key, in enumeration order.
pub open spec fn listing(store: StoreView, keys: Seq<Seq<char>>) -> Seq<NoteView> {
    keys.map_values(|k: Seq<char>| store[k])
}

proof fn lemma_fetch_rest(store: StoreView, keys: Seq<Seq<char>>, notes: Seq<NoteView>, fuel: nat)
    requires
        notes.len() < keys.len(),
        forall|i: int| 0 <= i < keys.len() ==> store.contains_key(#[trigger] keys[i]),
        fuel >= keys.len() - notes.len(),
    ensures
        run(
            store,
            keys,
            StepView::Await {
                pending: crate::dispatch::PendingView::Values { keys: keys, notes: notes },
                request: RequestView::Fetch { key: keys[notes.len() as int] },
            },
            fuel,
        ) == Some((store, ReplyView::Listing(notes + listing(store, keys).subrange(notes.len() as int, keys.len() as int)))),
    decreases keys.len() - notes.len(),
{
    reveal_with_fuel(run, 2);
    let i = notes.len() as int;
    let v = store[keys[i]];
    let rest = listing(store, keys).subrange(i, keys.len() as int);
    if notes.len() + 1 < keys.len() {
        lemma_fetch_rest(store, keys, notes.push(v), (fuel - 1) as nat);
        let rest2 = listing(store, keys).subrange(i + 1, keys.len() as int);
        assert(notes.push(v) + rest2 =~= notes + rest);
    } else {
        assert(notes.push(v) =~= notes + rest);
    }
}

/// A `Get` against a store lists the value under each enumerated key, in
/// enumeration order, and leaves the store as it was.
pub proof fn lemma_get_lists_store(store: StoreView, keys: Seq<Seq<char>>)
    requires
        enumerates(store, keys),
    ensures
        run(store, keys, get_start(), keys.len() + 1) == Some((store, ReplyView::Listing(listing(store, keys)))),
{
    reveal_with_fuel(run, 2);
    assert forall|i: int| 0 <= i < keys.len() implies store.contains_key(#[trigger] keys[i]) by {
        assert(keys.contains(keys[i]));
    }
    if keys.len() == 0 {
        assert(listing(store, keys) =~= Seq::empty());
    } else {
        lemma_fetch_rest(store, keys, Seq::empty(), keys.len());
        assert(Seq::<NoteView>::empty() + listing(store, keys).subrange(0, keys.len() as int) =~= listing(store, keys));
    }
}

/// Round trip: after `Set` of `note`, a `Get` lists a note with the same
/// identifier and content.
pub proof fn lemma_set_then_get(store: StoreView, note: NoteView, keys: Seq<Seq<char>>)
    requires
        enumerates(store.insert(note_key(note.id), note), keys),
    ensures
        run(store, keys, set_start(note), 1) == Some((store.insert(note_key(note.id), note), ok_reply())),
        exists|i: int| 0 <= i < keys.len() &&
            #[trigger] listing(store.insert(note_key(note.id), note), keys)[i].id == note.id &&
            listing(store.insert(note_key(note.id), note), keys)[i].content == note.content,
        run(store.insert(note_key(note.id), note), keys, get_start(), keys.len() + 1) == Some((
            store.insert(note_key(note.id), note),
            ReplyView::Listing(listing(store.insert(note_key(note.id), note), keys)),
        )),
{
    reveal_with_fuel(run, 2);
    let s1 = store.insert(note_key(note.id), note);
    lemma_get_lists_store(s1, keys);
    lemma_note_key_injective(note.id, note.id);
    assert(keys.contains(note_key(note.id)));
    let i = keys.index_of(note_key(note.id));
    assert(listing(s1, keys)[i] == note);
}

/// Full overwrite: after two `Set`s of notes with one identifier, a `Get`
/// lists the second note, and every listed note with that identifier is the
/// second, whatever the first held.
pub proof fn lemma_second_set_wins(store: StoreView, first: NoteView, second: NoteView, keys: Seq<Seq<char>>)
    requires
        first.id == second.id,
        consistent(store),
        enumerates(store.insert(note_key(first.id), first).insert(note_key(second.id), second), keys),
    ensures
        run(store, keys, set_start(first), 1) == Some((store.insert(note_key(first.id), first), ok_reply())),
        run(store.insert(note_key(first.id), first), keys, set_start(second), 1) == Some((
            store.insert(note_key(first.id), first).insert(note_key(second.id), second),
            ok_reply(),
        )),
        run(store.insert(note_key(first.id), first).insert(note_key(second.id), second), keys, get_start(), keys.len() + 1)
            == Some((
            store.insert(note_key(first.id), first).insert(note_key(second.id), second),
            ReplyView::Listing(listing(store.insert(note_key(first.id), first).insert(note_key(second.id), second), keys)),
        )),
        listing(store.insert(note_key(first.id), first).insert(note_key(second.id), second), keys).contains(second),
        forall|i: int| 0 <= i < keys.len() &&
            #[trigger] listing(store.insert(note_key(first.id), first).insert(note_key(second.id), second), keys)[i].id == second.id
            ==> listing(store.insert(note_key(first.id), first).insert(note_key(second.id), second), keys)[i] == second,
{
    reveal_with_fuel(run, 2);
    let s2 = store.insert(note_key(first.id), first).insert(note_key(second.id), second);
    let l = listing(s2, keys);
    lemma_get_lists_store(s2, keys);
    lemma_note_key_injective(second.id, second.id);
    assert(keys.contains(note_key(second.id)));
    let j = keys.index_of(note_key(second.id));
    assert(l[j] == second);
    assert forall|i: int| 0 <= i < keys.len() && #[trigger] l[i].id == second.id implies l[i] == second by {
        let k = keys[i];
        assert(keys.contains(k));
        if k != note_key(second.id) {
            assert(store.contains_key(k));
            assert(k == note_key(store[k].id));
            lemma_note_key_injective(store[k].id, second.id);
        }
    }
}

/// Idempotent absence: a `Delete` of a note that is not stored answers 404
/// and leaves the store as it was, so a repeated `Delete` answers 404 again.
pub proof fn lemma_delete_absent(store: StoreView, id: Seq<char>, keys: Seq<Seq<char>>)
    requires
        !store.contains_key(note_key(id)),
    ensures
        run(store, keys, delete_start(id), 1) == Some((store, status_with(404, not_found_text()))),
        run(run(store, keys, delete_start(id), 1).unwrap().0, keys, delete_start(id), 1)
            == Some((store, status_with(404, not_found_text()))),
{
    reveal_with_fuel(run, 2);
    assert(store.remove(note_key(id)) =~= store);
}

/// A `Set` or `Delete` without a note is answered with 400 "Note is
/// required" before any store operation, so the store is untouched.
pub proof fn lemma_missing_note_untouched(store: StoreView, keys: Seq<Seq<char>>, command: Command)
    requires
        command != Command::Get,
    ensures
        message_start(command, None) == StepView::Done(status_with(400, note_required_text())),
        run(store, keys, message_start(command, None), 0) == Some((store, status_with(400, note_required_text()))),
{
}

} // verus!
