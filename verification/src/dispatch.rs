//! Classification and latency measurement for decoded messages.
//!
//! The discriminator's magnitude selects the event family — 1 a
//! top-of-book quote, 3 a trade — and its sign the side: positive is the
//! bid/buy side, negative the ask/sell side.  Every other tick
//! discriminator is ignored and dispatches nothing.  Latency is the gap
//! between the producer's local receive stamp and the consumer's clock.

use vstd::prelude::*;
use crate::wire::{DepthMsg, TickMsg};

verus! {

/// What a tick discriminator stands for.
#[derive(Debug, Clone, Copy, PartialEq, Eq, Structural)]
pub enum TickClass {
    /// Discriminator 1: bid-side top-of-book quote.
    QuoteBid,
    /// Discriminator -1: ask-side top-of-book quote.
    QuoteAsk,
    /// Discriminator 3: buy-aggressor trade.
    TradeBuy,
    /// Discriminator -3: sell-aggressor trade.
    TradeSell,
    /// Any other discriminator: dispatched to no handler.
    Ignored,
}

/// The class a discriminator selects.
pub open spec fn spec_classify(t: i32) -> TickClass {
    if t == 1 {
        TickClass::QuoteBid
    } else if t == -1 {
        TickClass::QuoteAsk
    } else if t == 3 {
        TickClass::TradeBuy
    } else if t == -3 {
        TickClass::TradeSell
    } else {
        TickClass::Ignored
    }
}

/// Classifies a tick discriminator.
pub fn classify(t: i32) -> (r: TickClass)
    ensures
        r == spec_classify(t),
{
    if t == 1 {
        TickClass::QuoteBid
    } else if t == -1 {
        TickClass::QuoteAsk
    } else if t == 3 {
        TickClass::TradeBuy
    } else if t == -3 {
        TickClass::TradeSell
    } else {
        TickClass::Ignored
    }
}

/// A tick ready for display: its class, its payload bits and the
/// ingestion latency.
#[derive(Debug, Clone, Copy, PartialEq, Eq, Structural)]
pub struct TickEvent {
    /// Quote or trade, with side.
    pub class: TickClass,
    /// Price as IEEE-754 double bits.
    pub price_bits: u64,
    /// Size as IEEE-754 double bits.
    pub size_bits: u64,
    /// `now_ns` minus the producer's local receive stamp.
    pub latency_ns: i64,
}

/// A depth snapshot ready for display: the level counts and the
/// ingestion latency.
#[derive(Debug, Clone, Copy, PartialEq, Eq, Structural)]
pub struct DepthEvent {
    /// Number of ask levels.
    pub asks_len: u32,
    /// Number of bid levels.
    pub bids_len: u32,
    /// `now_ns` minus the producer's local receive stamp.
    pub latency_ns: i64,
}

/// Turns a tick header into a displayable event, or nothing when the
/// discriminator belongs to no known family.
pub fn dispatch_tick(msg: &TickMsg, now_ns: i64) -> (r: Option<TickEvent>)
    requires
        i64::MIN <= now_ns - msg.local_ns <= i64::MAX,
    ensures
        match r {
            Some(ev) => {
                &&& spec_classify(msg.msg_type) != TickClass::Ignored
                &&& ev.class == spec_classify(msg.msg_type)
                &&& ev.price_bits == msg.price_bits
                &&& ev.size_bits == msg.size_bits
                &&& ev.latency_ns == now_ns - msg.local_ns
            },
            None => spec_classify(msg.msg_type) == TickClass::Ignored,
        },
{
    let class = classify(msg.msg_type);
    if let TickClass::Ignored = class {
        return None;
    }
    Some(
        TickEvent {
            class,
            price_bits: msg.price_bits,
            size_bits: msg.size_bits,
            latency_ns: now_ns - msg.local_ns,
        },
    )
}

/// Turns a depth header into a displayable event.
pub fn dispatch_depth(msg: &DepthMsg, now_ns: i64) -> (r: DepthEvent)
    requires
        i64::MIN <= now_ns - msg.local_ns <= i64::MAX,
    ensures
        r.asks_len == msg.asks_len,
        r.bids_len == msg.bids_len,
        r.latency_ns == now_ns - msg.local_ns,
{
    DepthEvent {
        asks_len: msg.asks_len,
        bids_len: msg.bids_len,
        latency_ns: now_ns - msg.local_ns,
    }
}

/// Discriminators 1 and -1 classify as quotes and 3 and -3 as trades,
/// the side following the sign in both families; every other
/// discriminator classifies as ignored and dispatches nothing.
pub proof fn law_classify_discriminator(t: i32)
    ensures
        t == 1 || t == -1 ==> spec_classify(t) == (if t > 0 {
            TickClass::QuoteBid
        } else {
            TickClass::QuoteAsk
        }),
        t == 3 || t == -3 ==> spec_classify(t) == (if t > 0 {
            TickClass::TradeBuy
        } else {
            TickClass::TradeSell
        }),
        t != 1 && t != -1 && t != 3 && t != -3 ==> spec_classify(t) == TickClass::Ignored,
{
}

} // verus!
