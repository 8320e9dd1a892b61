//! Client-side chat protocol and state reducer.
//!
//! The crate holds the wire envelope and its JSON codec, the state that a
//! chat session keeps (who is online, what has been said) and the
//! transitions that inbound frames and user actions cause.

pub mod chat;
pub mod json;
pub mod protocol;
pub mod text;
