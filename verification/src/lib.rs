//! A verified model of a small bidirectional messaging endpoint: the
//! per-connection exchange that a realtime server runs on every accepted
//! connection (a greeting ping, one awaited reply, then a fixed countdown of
//! text messages), together with the literal message contents it sends.
//!
//! The network servers themselves are unverified plumbing around this crate;
//! every decision they take per connection is a call into these modules.

use vstd::prelude::*;

pub mod content;
pub mod session;
pub mod trace;

verus! {

/// How many countdown messages a successful session sends.
pub const COUNTDOWN_COUNT: u8 = 4;

/// Milliseconds to pause after each countdown send before the next one.
pub const DELAY_MILLIS: u64 = 100;

} // verus!
