//! Shared-memory ring-buffer consumer logic.
//!
//! An external writer process owns a shared segment holding a sequence
//! counter, a read-cursor hint, a write-cursor `to`, and a fixed-capacity
//! circular array of fixed-size records.  The consumer reads `to`, walks
//! records from its own private cursor up to `to` modulo the capacity, and
//! never writes the segment.  This module holds the record decoding and
//! the cursor arithmetic; opening and mapping the segment stay outside.
//!
//! If the writer laps the reader by a full capacity, unread records are
//! overwritten unnoticed — an accepted hazard of the unsynchronized
//! design, not detected here.

use vstd::prelude::*;
use vstd::arithmetic::div_mod::{lemma_fundamental_div_mod, lemma_mod_multiples_vanish,
    lemma_mod_self_0, lemma_small_mod};
use vstd::slice::{slice_subrange, slice_to_vec};
use crate::wire::{le_i64_at, DecodeError};

verus! {

/// Size in bytes of one shared-memory record.
pub const SHM_RECORD_BYTES: usize = 80;

/// Size in bytes of each fixed-width ASCII text field (price, size).
pub const SHM_TEXT_BYTES: usize = 16;

/// Capacity of the writer's circular record array.
pub const SHM_QUEUE_CAPACITY: usize = 100000;

/// One record of the shared-memory feed.  Unlike the datagram wire
/// format, this producer stamps price and size as fixed-width ASCII text,
/// kept here as raw bytes for the display layer.
#[derive(Debug)]
pub struct ShmRecord {
    /// Producer-assigned instrument identifier.
    pub instrument_id: i64,
    /// Signed discriminator; this feed also carries an L2 delta variant
    /// with magnitude 2, absent from the datagram protocol.
    pub msg_type: i64,
    /// Transaction time, milliseconds.
    pub tx_ms: i64,
    /// Event time, milliseconds.
    pub event_ms: i64,
    /// Local receive time at the producer, nanoseconds.
    pub local_ns: i64,
    /// Sequence number or trade id.
    pub sn_id: i64,
    /// Price as fixed-width ASCII bytes.
    pub price_text: Vec<u8>,
    /// Size as fixed-width ASCII bytes.
    pub size_text: Vec<u8>,
}

/// `rec` spells out the leading record bytes of `s`.
pub open spec fn shm_record_matches(rec: ShmRecord, s: Seq<u8>) -> bool {
    &&& rec.instrument_id == le_i64_at(s, 0)
    &&& rec.msg_type == le_i64_at(s, 8)
    &&& rec.tx_ms == le_i64_at(s, 16)
    &&& rec.event_ms == le_i64_at(s, 24)
    &&& rec.local_ns == le_i64_at(s, 32)
    &&& rec.sn_id == le_i64_at(s, 40)
    &&& rec.price_text@ == s.subrange(48, 64)
    &&& rec.size_text@ == s.subrange(64, 80)
}

/// Decodes one shared-memory record from the leading bytes of `buf`.
pub fn decode_shm_record(buf: &[u8]) -> (r: Result<ShmRecord, DecodeError>)
    ensures
        match r {
            Ok(rec) => buf@.len() >= SHM_RECORD_BYTES && shm_record_matches(rec, buf@),
            Err(e) => buf@.len() < SHM_RECORD_BYTES && e == DecodeError::TooShort,
        },
{
    let n = buf.len();
    if n < SHM_RECORD_BYTES {
        return Err(DecodeError::TooShort);
    }
    let instrument_id = crate::wire::read_i64_at(buf, 0);
    let msg_type = crate::wire::read_i64_at(buf, 8);
    let tx_ms = crate::wire::read_i64_at(buf, 16);
    let event_ms = crate::wire::read_i64_at(buf, 24);
    let local_ns = crate::wire::read_i64_at(buf, 32);
    let sn_id = crate::wire::read_i64_at(buf, 40);
    let price_text = slice_to_vec(slice_subrange(buf, 48, 64));
    let size_text = slice_to_vec(slice_subrange(buf, 64, 80));
    Ok(
        ShmRecord {
            instrument_id,
            msg_type,
            tx_ms,
            event_ms,
            local_ns,
            sn_id,
            price_text,
            size_text,
        },
    )
}

/// Where the cursor stands after one step around a ring of the given
/// capacity.
pub open spec fn spec_advance(cur: int, capacity: int) -> int {
    (cur + 1) % capacity
}

/// How many records wait between the consumer's cursor and the writer's
/// cursor `to`, walking forward around the ring.
pub open spec fn spec_pending(cur: int, to: int, capacity: int) -> int {
    (to - cur) % capacity
}

/// Advances the consumer's private cursor one record, wrapping at the
/// capacity.
pub fn advance_cursor(cur: usize, capacity: usize) -> (r: usize)
    requires
        0 < capacity,
        cur < capacity,
    ensures
        r == spec_advance(cur as int, capacity as int),
        r < capacity,
        cur == capacity - 1 ==> r == 0,
        cur < capacity - 1 ==> r == cur + 1,
{
    if cur + 1 == capacity {
        proof {
            lemma_mod_self_0(capacity as int);
        }
        0
    } else {
        proof {
            lemma_small_mod((cur + 1) as nat, capacity as nat);
        }
        cur + 1
    }
}

/// Counts the records between the cursor and `to`; zero exactly when the
/// consumer has drained everything the writer published.
pub fn pending_count(cur: usize, to: usize, capacity: usize) -> (r: usize)
    requires
        cur < capacity,
        to < capacity,
    ensures
        r == spec_pending(cur as int, to as int, capacity as int),
        r < capacity,
        r == 0 <==> cur == to,
{
    if to >= cur {
        proof {
            lemma_small_mod((to - cur) as nat, capacity as nat);
        }
        to - cur
    } else {
        proof {
            lemma_mod_multiples_vanish(1, to - cur, capacity as int);
            lemma_small_mod((to - cur + capacity) as nat, capacity as nat);
        }
        capacity - cur + to
    }
}

/// The ring slots the consumer will read, in order, to drain from `cur`
/// up to the writer's cursor `to`; empty when they already meet.
pub fn drain_indices(cur: usize, to: usize, capacity: usize) -> (r: Vec<usize>)
    requires
        cur < capacity,
        to < capacity,
    ensures
        r@.len() == spec_pending(cur as int, to as int, capacity as int),
        forall|k: int|
            0 <= k < r@.len() ==> r@[k] == (cur as int + k) % (capacity as int) && r@[k]
                < capacity,
        r@.len() > 0 ==> r@[0] == cur,
{
    let ghost pending = spec_pending(cur as int, to as int, capacity as int);
    let mut out: Vec<usize> = Vec::new();
    let mut c: usize = cur;
    proof {
        lemma_small_mod(cur as nat, capacity as nat);
    }
    while c != to
        invariant
            cur < capacity,
            to < capacity,
            c < capacity,
            pending == spec_pending(cur as int, to as int, capacity as int),
            out@.len() <= pending,
            c as int == (cur as int + out@.len()) % (capacity as int),
            spec_pending(c as int, to as int, capacity as int) == pending - out@.len(),
            forall|k: int|
                0 <= k < out@.len() ==> out@[k] == (cur as int + k) % (capacity as int) && out@[k]
                    < capacity,
        decreases pending - out@.len(),
    {
        out.push(c);
        proof {
            lemma_pending_step(c as int, to as int, capacity as int);
            lemma_mod_step(cur as int + out@.len() - 1, capacity as int);
        }
        c = advance_cursor(c, capacity);
    }
    proof {
        lemma_small_mod(0nat, capacity as nat);
        if out@.len() > 0 {
            lemma_small_mod(cur as nat, capacity as nat);
        }
    }
    out
}

/// Stepping the cursor takes one record off the pending count.
proof fn lemma_pending_step(c: int, to: int, capacity: int)
    requires
        0 <= c < capacity,
        0 <= to < capacity,
        c != to,
    ensures
        spec_pending(spec_advance(c, capacity), to, capacity) == spec_pending(c, to, capacity) - 1,
{
    lemma_wrap_values(to - c, capacity);
    if c + 1 == capacity {
        lemma_mod_self_0(capacity);
        lemma_wrap_values(to - 0, capacity);
    } else {
        lemma_small_mod((c + 1) as nat, capacity as nat);
        lemma_wrap_values(to - (c + 1), capacity);
    }
}

/// One more step past `x` lands on `(x + 1)`'s slot: stepping commutes
/// with wrapping.
proof fn lemma_mod_step(x: int, capacity: int)
    requires
        0 < capacity,
        0 <= x,
    ensures
        (x % capacity + 1) % capacity == (x + 1) % capacity,
{
    lemma_fundamental_div_mod(x, capacity);
    lemma_mod_multiples_vanish(x / capacity, x % capacity + 1, capacity);
}

/// Spells out `x % capacity` for `x` within one wrap of the ring.
proof fn lemma_wrap_values(x: int, capacity: int)
    requires
        0 < capacity,
        -capacity <= x < 2 * capacity,
    ensures
        0 <= x < capacity ==> x % capacity == x,
        x < 0 ==> x % capacity == x + capacity,
        x >= capacity ==> x % capacity == x - capacity,
{
    if 0 <= x < capacity {
        lemma_small_mod(x as nat, capacity as nat);
    } else if x < 0 {
        lemma_mod_multiples_vanish(1, x, capacity);
        lemma_small_mod((x + capacity) as nat, capacity as nat);
    } else {
        lemma_mod_multiples_vanish(-1, x, capacity);
        lemma_small_mod((x - capacity) as nat, capacity as nat);
    }
}

/// Advancing from the last slot wraps to slot zero.
pub proof fn law_cursor_wraparound(capacity: int)
    requires
        0 < capacity,
    ensures
        spec_advance(capacity - 1, capacity) == 0,
{
    lemma_mod_self_0(capacity);
}

/// When the consumer's cursor already equals the writer's cursor, there
/// is nothing pending: a drain performs zero reads.
pub proof fn law_drain_empty(x: int, capacity: int)
    requires
        0 <= x < capacity,
    ensures
        spec_pending(x, x, capacity) == 0,
{
    lemma_small_mod(0nat, capacity as nat);
}

} // verus!
