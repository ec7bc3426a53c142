//! The four request operations: each performs one operation on the store and
//! builds the reply.

use crate::reply::{deleted_text, not_found_text, set_text, cleared_text, KeyValue, ResponseMessage};
use crate::store::Store;
use vstd::prelude::*;

verus! {

/// Reads the entry for `key`: the entry where the store holds one, `None`
/// where it does not. The store is left as it was.
pub fn get_value(db: &Store, key: String) -> (found: Option<KeyValue>)
    ensures
        match found {
            Some(entry) => entry.key@ == key@ && db@.get(key@) == Some(entry.value@),
            None => db@.get(key@) == None::<Seq<char>>,
        },
{
    match db.get(key.as_str()) {
        Some(value) => Some(KeyValue { key, value }),
        None => None,
    }
}

/// Writes the entry `key_value`, over an earlier value of its key if there
/// is one, and confirms it.
pub fn set_value(db: &mut Store, key_value: KeyValue) -> (reply: ResponseMessage)
    ensures
        final(db)@ == old(db)@.insert(key_value.key@, key_value.value@),
        reply.message@ == set_text(key_value.key@),
{
    let reply = ResponseMessage::key_set(key_value.key.as_str());
    db.set(key_value.key, key_value.value);
    reply
}

/// Removes the entry for `key`, and says in the reply whether there was one.
/// The store is unchanged where there was none.
pub fn delete_value(db: &mut Store, key: String) -> (reply: ResponseMessage)
    ensures
        final(db)@ == old(db)@.remove(key@),
        reply.message@ == if old(db)@.contains_key(key@) {
            deleted_text(key@)
        } else {
            not_found_text(key@)
        },
{
    if db.delete(key.as_str()) {
        ResponseMessage::key_deleted(key.as_str())
    } else {
        ResponseMessage::key_not_found(key.as_str())
    }
}

/// Removes every entry and confirms it.
pub fn clear_db(db: &mut Store) -> (reply: ResponseMessage)
    ensures
        final(db)@ == Map::<Seq<char>, Seq<char>>::empty(),
        reply.message@ == cleared_text(),
{
    db.clear();
    ResponseMessage::cleared()
}

} // verus!
