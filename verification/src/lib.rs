//! Session registry for chunked uploads.
//!
//! An upload is a session: a client opens it with a small metadata blob,
//! appends chunks in order, and closes it with an empty chunk. This crate
//! holds the decisions of that protocol as plain state machines; the code
//! that owns sockets, files and the database performs what they decide and
//! reports back what happened.

pub mod dlstream;
pub mod err;
pub mod header;
pub mod id;
pub mod payload;
pub mod state;
pub mod store;
pub mod upload;
pub mod ws;
