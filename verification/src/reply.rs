//! The bodies that the request operations answer with, and the exact text of
//! each message.

use vstd::prelude::*;
use vstd::string::*;

verus! {

/// One entry: a key and the value held for it.
#[derive(Debug, PartialEq, Eq)]
pub struct KeyValue {
    pub key: String,
    pub value: String,
}

/// A reply that carries one line of text.
#[derive(Debug, PartialEq, Eq)]
pub struct ResponseMessage {
    pub message: String,
}

impl Clone for KeyValue {
    fn clone(&self) -> (copy: KeyValue)
        ensures
            copy.key@ == self.key@,
            copy.value@ == self.value@,
    {
        KeyValue { key: self.key.clone(), value: self.value.clone() }
    }
}

impl Clone for ResponseMessage {
    fn clone(&self) -> (copy: ResponseMessage)
        ensures
            copy.message@ == self.message@,
    {
        ResponseMessage { message: self.message.clone() }
    }
}

/// The text that opens with `Key '`, then names `key`, then closes with `ending`.
pub open spec fn text_about_key(key: Seq<char>, ending: Seq<char>) -> Seq<char> {
    "Key '"@ + key + ending
}

/// The text that confirms that `key` was set.
pub open spec fn set_text(key: Seq<char>) -> Seq<char> {
    text_about_key(key, "' set successfully."@)
}

/// The text that confirms that the entry for `key` was removed.
pub open spec fn deleted_text(key: Seq<char>) -> Seq<char> {
    text_about_key(key, "' deleted successfully."@)
}

/// The text that says that no entry has `key`.
pub open spec fn not_found_text(key: Seq<char>) -> Seq<char> {
    text_about_key(key, "' not found."@)
}

/// The text that confirms that every entry was removed.
pub open spec fn cleared_text() -> Seq<char> {
    "Database cleared."@
}

/// The two replies to a removal never read the same, whatever the key: the
/// text alone tells whether an entry was found.
pub proof fn lemma_delete_replies_differ(key: Seq<char>)
    ensures
        deleted_text(key) != not_found_text(key),
{
    reveal_strlit("Key '");
    reveal_strlit("' deleted successfully.");
    reveal_strlit("' not found.");
    let at: int = key.len() + 7int;
    assert(deleted_text(key)[at] == 'd');
    assert(not_found_text(key)[at] == 'n');
}

fn message_about_key(key: &str, ending: &str) -> (reply: ResponseMessage)
    ensures
        reply.message@ == text_about_key(key@, ending@),
{
    let mut message = String::from_str("Key '");
    message.append(key);
    message.append(ending);
    ResponseMessage { message }
}

impl ResponseMessage {
    /// The reply to a write of `key`.
    pub fn key_set(key: &str) -> (reply: ResponseMessage)
        ensures
            reply.message@ == set_text(key@),
    {
        message_about_key(key, "' set successfully.")
    }

    /// The reply to a removal that found an entry for `key`.
    pub fn key_deleted(key: &str) -> (reply: ResponseMessage)
        ensures
            reply.message@ == deleted_text(key@),
    {
        message_about_key(key, "' deleted successfully.")
    }

    /// The reply to a removal that found no entry for `key`.
    pub fn key_not_found(key: &str) -> (reply: ResponseMessage)
        ensures
            reply.message@ == not_found_text(key@),
    {
        message_about_key(key, "' not found.")
    }

    /// The reply to the removal of every entry.
    pub fn cleared() -> (reply: ResponseMessage)
        ensures
            reply.message@ == cleared_text(),
    {
        ResponseMessage { message: String::from_str("Database cleared.") }
    }
}

} // verus!
