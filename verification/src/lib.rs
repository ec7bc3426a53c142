//! An in-memory store of string keys and string values, with the request
//! operations that act on it and the replies they give.

pub mod handlers;
pub mod history;
pub mod laws;
pub mod reply;
pub mod store;
