//! A verified implementation of the Bitcoin peer-to-peer handshake core:
//! the wire codecs for the `version` and `verack` messages and the typed
//! state machine that drives a connection from `Disconnected` to
//! `Established`.

pub mod commands;
pub mod errors;
pub mod handshake;
pub mod header;
pub mod types;
pub mod version;

use vstd::prelude::*;

verus! {

/// Byte length of every Bitcoin wire message header.
pub const HEADER_LENGTH: usize = 24;

} // verus!
