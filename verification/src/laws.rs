//! What holds of the store's operations taken together, stated over the
//! mapping that the store stands for.

use vstd::prelude::*;

verus! {

/// A read of any key in an empty mapping gives nothing: so it is for a new
/// store, and for every key after all entries were removed.
pub proof fn lemma_empty_has_no_entry(key: Seq<char>)
    ensures
        Map::<Seq<char>, Seq<char>>::empty().get(key) == None::<Seq<char>>,
{
}

/// A read of a key after a write of it gives exactly the value written, and
/// reads of the other keys give what they gave before.
pub proof fn lemma_get_after_set(
    m: Map<Seq<char>, Seq<char>>,
    key: Seq<char>,
    value: Seq<char>,
    other: Seq<char>,
)
    ensures
        m.insert(key, value).get(key) == Some(value),
        other != key ==> m.insert(key, value).get(other) == m.get(other),
{
}

/// Of two writes to one key the later one wins: the mapping is what the
/// second write alone would have left, and a read gives the second value.
pub proof fn lemma_last_write_wins(
    m: Map<Seq<char>, Seq<char>>,
    key: Seq<char>,
    first: Seq<char>,
    second: Seq<char>,
)
    ensures
        m.insert(key, first).insert(key, second) == m.insert(key, second),
        m.insert(key, first).insert(key, second).get(key) == Some(second),
{
    assert(m.insert(key, first).insert(key, second) =~= m.insert(key, second));
}

/// After the removal of a key that had an entry, a read of the key gives
/// nothing, and a finite mapping holds one entry fewer.
pub proof fn lemma_delete_existing(m: Map<Seq<char>, Seq<char>>, key: Seq<char>)
    requires
        m.contains_key(key),
    ensures
        m.remove(key).get(key) == None::<Seq<char>>,
        m.dom().finite() ==> m.remove(key).len() == m.len() - 1,
{
    if m.dom().finite() {
        assert(m.remove(key).dom() =~= m.dom().remove(key));
    }
}

/// Removing a key that has no entry leaves the mapping as it was, its size
/// included.
pub proof fn lemma_delete_missing(m: Map<Seq<char>, Seq<char>>, key: Seq<char>)
    requires
        !m.contains_key(key),
    ensures
        m.remove(key) == m,
        m.remove(key).len() == m.len(),
{
    assert(m.remove(key) =~= m);
}

/// Removing a key twice leaves what removing it once leaves.
pub proof fn lemma_delete_is_idempotent(m: Map<Seq<char>, Seq<char>>, key: Seq<char>)
    ensures
        m.remove(key).remove(key) == m.remove(key),
{
    assert(m.remove(key).remove(key) =~= m.remove(key));
}

/// Two writes to one key, applied one whole after the other in either order,
/// leave the key with the value of the one applied last: with exactly one of
/// the two values, and nothing else.
pub proof fn lemma_two_writes_leave_one_value(
    m: Map<Seq<char>, Seq<char>>,
    key: Seq<char>,
    a: Seq<char>,
    b: Seq<char>,
)
    ensures
        m.insert(key, a).insert(key, b).get(key) == Some(b),
        m.insert(key, b).insert(key, a).get(key) == Some(a),
{
}

} // verus!
