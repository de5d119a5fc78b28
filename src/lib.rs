//! Relays a text message to a chat-platform destination chosen by its name.
//!
//! The library holds the decisions: which destination a name denotes in a
//! directory snapshot, what the relay does next after each platform event,
//! and which response a request receives. The platform calls themselves are
//! made by the caller, which feeds their results back in.
use vstd::prelude::*;

pub mod directory;
pub mod resolver;
pub mod dispatch;

verus! {

} // verus!
