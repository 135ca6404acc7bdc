//! Verified core of a market-data feed client.
//!
//! Two independent ingestion paths share this library: a datagram
//! subscription client that decodes a tagged binary wire format, and a
//! shared-memory ring-buffer consumer that walks fixed-size records behind
//! a writer-owned cursor.  Everything here is pure computation over plain
//! values; sockets, signals and shared-memory mapping live in the
//! surrounding application.

use vstd::prelude::*;

pub mod client;
pub mod dispatch;
pub mod protocol;
pub mod registry;
pub mod shm;
pub mod wire;

verus! {

} // verus!
