//! Datagram routing: the pure core of the client's receive step.
//!
//! One datagram comes in; its header is decoded, its instrument index is
//! looked up in the registry, and the message is handed to the matching
//! handler — tick or depth — under the subscribed symbol.  Malformed
//! datagrams and datagrams for unknown indices are dropped, the latter
//! silently: traffic outside the current subscriptions is expected.

use vstd::prelude::*;
use crate::registry::{contains_index, SubscriptionRegistry};
use crate::wire::{decode_datagram, spec_decode, DecodeError, DepthMsg, TickMsg, WireMessage};

verus! {

/// Where one received datagram goes.
#[derive(Debug)]
pub enum RouteOutcome {
    /// The datagram failed to decode and is dropped.
    Malformed(DecodeError),
    /// No subscription carries the datagram's instrument index; it is
    /// silently dropped.
    Unknown,
    /// A tick for a subscribed symbol: hand it to the tick handler.
    Tick { symbol: String, msg: TickMsg },
    /// A depth snapshot for a subscribed symbol: hand it, with the
    /// buffer's level arrays, to the depth handler.
    Depth { symbol: String, msg: DepthMsg },
}

/// Decodes one datagram and routes it by its instrument index.  The
/// symbol handed out is the one of the first registry entry carrying the
/// index.
pub fn route_datagram(reg: &SubscriptionRegistry, buf: &[u8]) -> (r: RouteOutcome)
    ensures
        match r {
            RouteOutcome::Malformed(e) => spec_decode(buf@) == Err::<WireMessage, DecodeError>(e),
            RouteOutcome::Unknown => {
                &&& spec_decode(buf@) is Ok
                &&& match spec_decode(buf@) {
                    Ok(WireMessage::Tick(m)) => !contains_index(reg@, m.index),
                    Ok(WireMessage::Depth(m)) => !contains_index(reg@, m.index),
                    Err(_) => false,
                }
            },
            RouteOutcome::Tick { symbol, msg } => {
                &&& spec_decode(buf@) == Ok::<WireMessage, DecodeError>(WireMessage::Tick(msg))
                &&& exists|p: int|
                    0 <= p < reg@.len() && reg@[p].1 == msg.index && symbol@ == reg@[p].0
                        && forall|j: int| 0 <= j < p ==> reg@[j].1 != msg.index
            },
            RouteOutcome::Depth { symbol, msg } => {
                &&& spec_decode(buf@) == Ok::<WireMessage, DecodeError>(WireMessage::Depth(msg))
                &&& exists|p: int|
                    0 <= p < reg@.len() && reg@[p].1 == msg.index && symbol@ == reg@[p].0
                        && forall|j: int| 0 <= j < p ==> reg@[j].1 != msg.index
            },
        },
{
    match decode_datagram(buf) {
        Err(e) => RouteOutcome::Malformed(e),
        Ok(WireMessage::Tick(msg)) => match reg.get_symbol_by_index(msg.index) {
            Some(symbol) => RouteOutcome::Tick { symbol, msg },
            None => RouteOutcome::Unknown,
        },
        Ok(WireMessage::Depth(msg)) => match reg.get_symbol_by_index(msg.index) {
            Some(symbol) => RouteOutcome::Depth { symbol, msg },
            None => RouteOutcome::Unknown,
        },
    }
}

} // verus!
