//! A search provider driven by a launcher host over a framed duplex stream.
//!
//! The host sends commands (search, activate, abort, quit); the provider
//! answers with correlated results and streams the hits of a search one at a
//! time, each acknowledged by the host before the next one is sent.
//!
//! The crate holds the message model, the result set of the current search
//! generation, and the protocol engine: a state machine that takes each event
//! (a package read from the stream, the answer of the application directory,
//! the outcome of a launch) and says which packages to write and what to wait
//! for next. Transport and the application directory stay with the caller.

use vstd::prelude::*;

pub mod message;
pub mod result_set;
pub mod engine;
pub mod laws;
