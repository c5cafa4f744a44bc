//! The statuses that the core's outcomes show to a client.

use vstd::prelude::*;

verus! {

/// The request was turned away at the authorization gate, whatever the cause.
pub const UNAUTHORIZED: u16 = 401;

/// The server failed: hashing, the store, the clock or the encoder.
pub const SERVER_ERROR: u16 = 500;

} // verus!
