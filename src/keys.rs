//! Names under which notes and user tokens live in the key-value store.
use vstd::prelude::*;

verus! {

/// The namespace that partitions note records: `note:`.
pub open spec fn note_prefix() -> Seq<char> {
    seq!['n', 'o', 't', 'e', ':']
}

/// The namespace of per-user records: `user:`.
pub open spec fn user_prefix() -> Seq<char> {
    seq!['u', 's', 'e', 'r', ':']
}

/// The store key of the note with identifier `id`.
pub open spec fn note_key(id: Seq<char>) -> Seq<char> {
    note_prefix() + id
}

/// The store key of the record of user `name`.
pub open spec fn user_key(name: Seq<char>) -> Seq<char> {
    user_prefix() + name
}

/// Whether `key` lies in the note namespace.
pub open spec fn is_note_key(key: Seq<char>) -> bool {
    key.len() >= note_prefix().len() && key.subrange(0, note_prefix().len() as int) == note_prefix()
}

/// Distinct identifiers give distinct note keys, and every note key is in
/// the namespace.
pub proof fn lemma_note_key_injective(a: Seq<char>, b: Seq<char>)
    ensures
        (note_key(a) == note_key(b)) == (a == b),
        is_note_key(note_key(a)),
{
    if note_key(a) == note_key(b) {
        assert(a =~= note_key(a).subrange(5, note_key(a).len() as int));
        assert(b =~= note_key(b).subrange(5, note_key(b).len() as int));
    }
    assert(note_key(a).subrange(0, 5) =~= note_prefix());
}

/// Computes [`note_key`].
pub fn make_note_key(id: &str) -> (r: String)
    ensures
        r@ == note_key(id@),
{
    let mut k = String::from_str("note:");
    proof {
        reveal_strlit("note:");
    }
    assert(k@ =~= note_prefix());
    k.append(id);
    k
}

/// Computes [`user_key`].
pub fn make_user_key(name: &str) -> (r: String)
    ensures
        r@ == user_key(name@),
{
    let mut k = String::from_str("user:");
    proof {
        reveal_strlit("user:");
    }
    assert(k@ =~= user_prefix());
    k.append(name);
    k
}

/// The pattern that lists every note key: `note:*`.
pub fn note_pattern() -> (r: String)
    ensures
        r@ == note_prefix().push('*'),
{
    let r = String::from_str("note:*");
    proof {
        reveal_strlit("note:*");
    }
    assert(r@ =~= note_prefix().push('*'));
    r
}

} // verus!
