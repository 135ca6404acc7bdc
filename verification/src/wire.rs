//! Binary wire format of the datagram feed.
//!
//! Every datagram starts with a 56-byte fixed header whose leading field is
//! a signed discriminator.  Discriminator 2 marks a depth snapshot: the
//! header's `asks_len` and `bids_len` fields size two arrays of 16-byte
//! (price, size) pairs packed right after the header.  Any other
//! discriminator marks a single tick record whose trailing fields are the
//! price and size themselves.  Prices and sizes travel as 64-bit IEEE-754
//! bit patterns; this library carries them as `u64` bits and leaves the
//! floating-point interpretation to the display layer.

use vstd::prelude::*;
use vstd::bytes::{spec_u32_from_le_bytes, spec_u64_from_le_bytes, u32_from_le_bytes,
    u64_from_le_bytes};
use vstd::slice::slice_subrange;

verus! {

/// Size in bytes of the fixed header shared by every datagram.
pub const WIRE_HEADER_BYTES: usize = 56;

/// Size in bytes of one (price, size) depth level.
pub const LEVEL_BYTES: usize = 16;

/// Discriminator value of a depth snapshot.
pub const DEPTH_DISCRIMINATOR: i32 = 2;

/// The little-endian `u32` stored at byte offset `off`.
pub open spec fn le_u32_at(s: Seq<u8>, off: int) -> u32 {
    spec_u32_from_le_bytes(s.subrange(off, off + 4))
}

/// The little-endian `u64` stored at byte offset `off`.
pub open spec fn le_u64_at(s: Seq<u8>, off: int) -> u64 {
    spec_u64_from_le_bytes(s.subrange(off, off + 8))
}

/// The little-endian two's-complement `i32` stored at byte offset `off`.
pub open spec fn le_i32_at(s: Seq<u8>, off: int) -> i32 {
    le_u32_at(s, off) as i32
}

/// The little-endian two's-complement `i64` stored at byte offset `off`.
pub open spec fn le_i64_at(s: Seq<u8>, off: int) -> i64 {
    le_u64_at(s, off) as i64
}

/// Reads the little-endian `u32` at offset `off`.
pub fn read_u32_at(buf: &[u8], off: usize) -> (r: u32)
    requires
        off + 4 <= buf@.len(),
    ensures
        r == le_u32_at(buf@, off as int),
{
    proof {
        vstd::slice::axiom_spec_len(buf);
    }
    u32_from_le_bytes(slice_subrange(buf, off, off + 4))
}

/// Reads the little-endian `u64` at offset `off`.
pub fn read_u64_at(buf: &[u8], off: usize) -> (r: u64)
    requires
        off + 8 <= buf@.len(),
    ensures
        r == le_u64_at(buf@, off as int),
{
    proof {
        vstd::slice::axiom_spec_len(buf);
    }
    u64_from_le_bytes(slice_subrange(buf, off, off + 8))
}

/// Reads the little-endian `i32` at offset `off`.
pub fn read_i32_at(buf: &[u8], off: usize) -> (r: i32)
    requires
        off + 4 <= buf@.len(),
    ensures
        r == le_i32_at(buf@, off as int),
{
    let u = read_u32_at(buf, off);
    #[verifier::truncate] (u as i32)
}

/// Reads the little-endian `i64` at offset `off`.
pub fn read_i64_at(buf: &[u8], off: usize) -> (r: i64)
    requires
        off + 8 <= buf@.len(),
    ensures
        r == le_i64_at(buf@, off as int),
{
    let u = read_u64_at(buf, off);
    #[verifier::truncate] (u as i64)
}

/// Fixed header of a tick datagram (top-of-book quote or trade).
#[derive(Debug, Clone, Copy, PartialEq, Eq, Structural)]
pub struct TickMsg {
    /// Signed discriminator: magnitude 1 is a quote, 3 a trade; the sign
    /// encodes the side.
    pub msg_type: i32,
    /// Server-assigned instrument index.
    pub index: u32,
    /// Transaction time, milliseconds.
    pub tx_ms: i64,
    /// Event time, milliseconds.
    pub event_ms: i64,
    /// Local receive time at the producer, nanoseconds.
    pub local_ns: i64,
    /// Sequence number or trade id.
    pub sn_id: i64,
    /// Price as IEEE-754 double bits.
    pub price_bits: u64,
    /// Size as IEEE-754 double bits.
    pub size_bits: u64,
}

/// Fixed header of a depth-snapshot datagram.
#[derive(Debug, Clone, Copy, PartialEq, Eq, Structural)]
pub struct DepthMsg {
    /// Signed discriminator; always 2 for a decoded depth message.
    pub msg_type: i32,
    /// Server-assigned instrument index.
    pub index: u32,
    /// Transaction time, milliseconds.
    pub tx_ms: i64,
    /// Event time, milliseconds.
    pub event_ms: i64,
    /// Local receive time at the producer, nanoseconds.
    pub local_ns: i64,
    /// Sequence number.
    pub sn_id: i64,
    /// Producer-side ask array index; carried through, not interpreted.
    pub asks_idx: u32,
    /// Number of ask levels packed after the header.
    pub asks_len: u32,
    /// Producer-side bid array index; carried through, not interpreted.
    pub bids_idx: u32,
    /// Number of bid levels packed after the ask levels.
    pub bids_len: u32,
}

/// One depth level: a (price, size) pair as IEEE-754 double bits.
#[derive(Debug, Clone, Copy, PartialEq, Eq, Structural)]
pub struct Level {
    /// Price as IEEE-754 double bits.
    pub price_bits: u64,
    /// Size as IEEE-754 double bits.
    pub size_bits: u64,
}

/// A decoded datagram: either a single tick or a depth-snapshot header
/// whose levels stay in the original buffer.
#[derive(Debug, Clone, Copy, PartialEq, Eq, Structural)]
pub enum WireMessage {
    /// Top-of-book quote or trade.
    Tick(TickMsg),
    /// Depth snapshot; read the levels with `ask_at` / `bid_at`.
    Depth(DepthMsg),
}

/// Why a datagram failed to decode.
#[derive(Debug, Clone, Copy, PartialEq, Eq, Structural)]
pub enum DecodeError {
    /// The buffer is shorter than the fixed header.
    TooShort,
    /// A depth header's level counts reach past the end of the buffer.
    Truncated,
}

/// The tick header spelled out by the bytes of `s`.
pub open spec fn spec_tick(s: Seq<u8>) -> TickMsg {
    TickMsg {
        msg_type: le_i32_at(s, 0),
        index: le_u32_at(s, 4),
        tx_ms: le_i64_at(s, 8),
        event_ms: le_i64_at(s, 16),
        local_ns: le_i64_at(s, 24),
        sn_id: le_i64_at(s, 32),
        price_bits: le_u64_at(s, 40),
        size_bits: le_u64_at(s, 48),
    }
}

/// The depth header spelled out by the bytes of `s`.
pub open spec fn spec_depth(s: Seq<u8>) -> DepthMsg {
    DepthMsg {
        msg_type: le_i32_at(s, 0),
        index: le_u32_at(s, 4),
        tx_ms: le_i64_at(s, 8),
        event_ms: le_i64_at(s, 16),
        local_ns: le_i64_at(s, 24),
        sn_id: le_i64_at(s, 32),
        asks_idx: le_u32_at(s, 40),
        asks_len: le_u32_at(s, 44),
        bids_idx: le_u32_at(s, 48),
        bids_len: le_u32_at(s, 52),
    }
}

/// Total byte length a depth datagram with `s`'s header must have.
pub open spec fn spec_depth_needed(s: Seq<u8>) -> int {
    WIRE_HEADER_BYTES + (le_u32_at(s, 44) + le_u32_at(s, 52)) * LEVEL_BYTES
}

/// `s` is a well-formed depth datagram: full header, depth discriminator,
/// and both level arrays inside the buffer.
pub open spec fn depth_ok(s: Seq<u8>) -> bool {
    &&& s.len() >= WIRE_HEADER_BYTES
    &&& le_i32_at(s, 0) == DEPTH_DISCRIMINATOR
    &&& spec_depth_needed(s) <= s.len()
}

/// The level stored at byte offset `off`.
pub open spec fn spec_level(s: Seq<u8>, off: int) -> Level {
    Level { price_bits: le_u64_at(s, off), size_bits: le_u64_at(s, off + 8) }
}

/// The ask levels of a depth datagram, in wire order.
pub open spec fn spec_asks(s: Seq<u8>) -> Seq<Level> {
    Seq::new(le_u32_at(s, 44) as nat, |i: int| spec_level(s, WIRE_HEADER_BYTES + i * LEVEL_BYTES))
}

/// The bid levels of a depth datagram, in wire order, packed after the asks.
pub open spec fn spec_bids(s: Seq<u8>) -> Seq<Level> {
    Seq::new(
        le_u32_at(s, 52) as nat,
        |i: int| spec_level(s, WIRE_HEADER_BYTES + (le_u32_at(s, 44) + i) * LEVEL_BYTES),
    )
}

/// What decoding the bytes of `s` yields: exactly one of a tick, a depth
/// header, or a decode error.
pub open spec fn spec_decode(s: Seq<u8>) -> Result<WireMessage, DecodeError> {
    if s.len() < WIRE_HEADER_BYTES {
        Err(DecodeError::TooShort)
    } else if le_i32_at(s, 0) == DEPTH_DISCRIMINATOR {
        if spec_depth_needed(s) <= s.len() {
            Ok(WireMessage::Depth(spec_depth(s)))
        } else {
            Err(DecodeError::Truncated)
        }
    } else {
        Ok(WireMessage::Tick(spec_tick(s)))
    }
}

/// Decodes one datagram: bounds-checks the buffer, reads the fixed header,
/// and for a depth message checks that both level arrays lie inside the
/// buffer.  Never reads past `buf`'s end; never panics.
pub fn decode_datagram(buf: &[u8]) -> (r: Result<WireMessage, DecodeError>)
    ensures
        r == spec_decode(buf@),
{
    let n = buf.len();
    if n < WIRE_HEADER_BYTES {
        return Err(DecodeError::TooShort);
    }
    let msg_type = read_i32_at(buf, 0);
    let index = read_u32_at(buf, 4);
    let tx_ms = read_i64_at(buf, 8);
    let event_ms = read_i64_at(buf, 16);
    let local_ns = read_i64_at(buf, 24);
    let sn_id = read_i64_at(buf, 32);
    if msg_type == DEPTH_DISCRIMINATOR {
        let asks_idx = read_u32_at(buf, 40);
        let asks_len = read_u32_at(buf, 44);
        let bids_idx = read_u32_at(buf, 48);
        let bids_len = read_u32_at(buf, 52);
        let needed: u64 = 56u64 + (asks_len as u64 + bids_len as u64) * 16u64;
        proof {
            assert(needed == spec_depth_needed(buf@));
        }
        if needed <= n as u64 {
            Ok(WireMessage::Depth(DepthMsg {
                msg_type,
                index,
                tx_ms,
                event_ms,
                local_ns,
                sn_id,
                asks_idx,
                asks_len,
                bids_idx,
                bids_len,
            }))
        } else {
            Err(DecodeError::Truncated)
        }
    } else {
        let price_bits = read_u64_at(buf, 40);
        let size_bits = read_u64_at(buf, 48);
        Ok(WireMessage::Tick(TickMsg {
            msg_type,
            index,
            tx_ms,
            event_ms,
            local_ns,
            sn_id,
            price_bits,
            size_bits,
        }))
    }
}

/// Reads ask level `i` straight out of the datagram buffer (zero-copy).
pub fn ask_at(buf: &[u8], i: usize) -> (r: Level)
    requires
        depth_ok(buf@),
        i < le_u32_at(buf@, 44),
    ensures
        r == spec_asks(buf@)[i as int],
{
    proof {
        vstd::slice::axiom_spec_len(buf);
    }
    let off = WIRE_HEADER_BYTES + i * LEVEL_BYTES;
    let price_bits = read_u64_at(buf, off);
    let size_bits = read_u64_at(buf, off + 8);
    Level { price_bits, size_bits }
}

/// Reads bid level `i` straight out of the datagram buffer (zero-copy);
/// bids are packed after all `asks_len` ask levels.
pub fn bid_at(buf: &[u8], i: usize) -> (r: Level)
    requires
        depth_ok(buf@),
        i < le_u32_at(buf@, 52),
    ensures
        r == spec_bids(buf@)[i as int],
{
    proof {
        vstd::slice::axiom_spec_len(buf);
    }
    let asks_len = read_u32_at(buf, 44);
    let off = WIRE_HEADER_BYTES + (asks_len as usize + i) * LEVEL_BYTES;
    let price_bits = read_u64_at(buf, off);
    let size_bits = read_u64_at(buf, off + 8);
    Level { price_bits, size_bits }
}

/// Copies all ask levels of a depth datagram out of the buffer, in wire
/// order.
pub fn collect_asks(buf: &[u8]) -> (r: Vec<Level>)
    requires
        depth_ok(buf@),
    ensures
        r@ == spec_asks(buf@),
{
    let asks_len = read_u32_at(buf, 44);
    let mut out: Vec<Level> = Vec::new();
    let mut i: usize = 0;
    while i < asks_len as usize
        invariant
            depth_ok(buf@),
            asks_len == le_u32_at(buf@, 44),
            i <= asks_len,
            out@.len() == i,
            forall|j: int| 0 <= j < i ==> out@[j] == spec_asks(buf@)[j],
        decreases asks_len - i,
    {
        out.push(ask_at(buf, i));
        i = i + 1;
    }
    proof {
        assert(out@ =~= spec_asks(buf@));
    }
    out
}

/// Copies all bid levels of a depth datagram out of the buffer, in wire
/// order.
pub fn collect_bids(buf: &[u8]) -> (r: Vec<Level>)
    requires
        depth_ok(buf@),
    ensures
        r@ == spec_bids(buf@),
{
    let bids_len = read_u32_at(buf, 52);
    let mut out: Vec<Level> = Vec::new();
    let mut i: usize = 0;
    while i < bids_len as usize
        invariant
            depth_ok(buf@),
            bids_len == le_u32_at(buf@, 52),
            i <= bids_len,
            out@.len() == i,
            forall|j: int| 0 <= j < i ==> out@[j] == spec_bids(buf@)[j],
        decreases bids_len - i,
    {
        out.push(bid_at(buf, i));
        i = i + 1;
    }
    proof {
        assert(out@ =~= spec_bids(buf@));
    }
    out
}

/// A depth buffer of exactly the advertised length decodes successfully,
/// and yields exactly `a` ask levels and `b` bid levels in wire order.
pub proof fn law_depth_decode_exact(s: Seq<u8>, a: u32, b: u32)
    requires
        le_i32_at(s, 0) == DEPTH_DISCRIMINATOR,
        le_u32_at(s, 44) == a,
        le_u32_at(s, 52) == b,
        s.len() == WIRE_HEADER_BYTES + (a + b) * LEVEL_BYTES,
    ensures
        spec_decode(s) == Ok::<WireMessage, DecodeError>(WireMessage::Depth(spec_depth(s))),
        spec_depth(s).asks_len == a,
        spec_depth(s).bids_len == b,
        spec_asks(s).len() == a,
        spec_bids(s).len() == b,
        forall|i: int|
            0 <= i < a ==> spec_asks(s)[i] == spec_level(s, WIRE_HEADER_BYTES + i * LEVEL_BYTES),
        forall|i: int|
            0 <= i < b ==> spec_bids(s)[i] == spec_level(
                s,
                WIRE_HEADER_BYTES + (a + i) * LEVEL_BYTES,
            ),
{
}

/// A depth buffer shorter than the advertised length — a truncated
/// datagram, in particular one cut one byte short — fails to decode.
pub proof fn law_depth_decode_truncated(s: Seq<u8>)
    requires
        s.len() >= WIRE_HEADER_BYTES,
        le_i32_at(s, 0) == DEPTH_DISCRIMINATOR,
        s.len() < spec_depth_needed(s),
    ensures
        spec_decode(s) == Err::<WireMessage, DecodeError>(DecodeError::Truncated),
{
}

} // verus!
