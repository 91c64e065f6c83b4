//! An in-process advisory lock manager.
//!
//! The manager grants and revokes exclusive ownership of named resources to
//! named requesters. Its state is a lock table mapping each requester id to
//! the single resource id that requester currently holds; `acquire` inserts
//! into the table and `release` removes from it, each as one atomic
//! check-then-mutate step that either fully succeeds or fails with a typed
//! error and leaves the table unchanged.

pub mod client;
pub mod descriptors;
pub mod errors;
pub mod service;
pub mod table;
