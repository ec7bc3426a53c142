//! The store as a sequence of operations applied one after another, and what
//! holds of every such sequence.

use vstd::prelude::*;

verus! {

/// One operation that changes or may change the mapping.
pub enum Operation {
    SetKey { key: Seq<char>, value: Seq<char> },
    DeleteKey { key: Seq<char> },
    ClearAll,
}

/// The mapping after `op` was applied to `m`.
pub open spec fn apply(m: Map<Seq<char>, Seq<char>>, op: Operation) -> Map<Seq<char>, Seq<char>> {
    match op {
        Operation::SetKey { key, value } => m.insert(key, value),
        Operation::DeleteKey { key } => m.remove(key),
        Operation::ClearAll => Map::empty(),
    }
}

/// The mapping that an empty store holds after the operations `ops`, applied
/// in order, each one whole before the next begins.
pub open spec fn replay(ops: Seq<Operation>) -> Map<Seq<char>, Seq<char>>
    decreases ops.len(),
{
    if ops.len() == 0 {
        Map::empty()
    } else {
        apply(replay(ops.drop_last()), ops.last())
    }
}

/// Whether `op` writes an entry for `key`.
pub open spec fn writes_key(op: Operation, key: Seq<char>) -> bool {
    op matches Operation::SetKey { key: written, .. } && written == key
}

/// A key that no operation of the history has set is absent: a read of it
/// gives nothing, whatever else was set, deleted or cleared.
pub proof fn lemma_never_set_is_absent(ops: Seq<Operation>, key: Seq<char>)
    requires
        forall|i: int| 0 <= i < ops.len() ==> !writes_key(#[trigger] ops[i], key),
    ensures
        replay(ops).get(key) == None::<Seq<char>>,
    decreases ops.len(),
{
    if ops.len() > 0 {
        let earlier = ops.drop_last();
        assert forall|i: int| 0 <= i < earlier.len() implies !writes_key(
            #[trigger] earlier[i],
            key,
        ) by {
            assert(earlier[i] == ops[i]);
        }
        lemma_never_set_is_absent(earlier, key);
        assert(!writes_key(ops[ops.len() - 1], key));
    }
}

/// The mapping of every history holds finitely many entries.
pub proof fn lemma_replay_is_finite(ops: Seq<Operation>)
    ensures
        replay(ops).dom().finite(),
    decreases ops.len(),
{
    if ops.len() > 0 {
        lemma_replay_is_finite(ops.drop_last());
    }
}

/// A read of `key` after a history whose last operation set it gives the
/// value of that operation, whatever came before.
pub proof fn lemma_last_write_is_read(earlier: Seq<Operation>, key: Seq<char>, value: Seq<char>)
    ensures
        replay(earlier.push(Operation::SetKey { key, value })).get(key) == Some(value),
{
    let ops = earlier.push(Operation::SetKey { key, value });
    assert(ops.drop_last() =~= earlier);
}

} // verus!
