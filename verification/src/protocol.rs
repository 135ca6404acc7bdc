//! Subscription request/response protocol.
//!
//! A subscribe request carries the symbol itself as its payload; the
//! server answers with either a decimal instrument index or an error
//! string.  An unsubscribe request carries the symbol prefixed with a
//! negation marker, and its response is informational only.  This module
//! holds the pure halves of those exchanges: forming payloads, parsing the
//! acknowledgment, and updating the registry; the sockets stay outside.

use vstd::prelude::*;
use vstd::utf8::encode_utf8;
use crate::registry::{contains_symbol, unique_symbols, SubscriptionRegistry};

verus! {

/// ASCII `-`, the unsubscribe marker prefixed to the symbol.
pub const UNSUBSCRIBE_MARKER: u8 = 45;

/// `b` is an ASCII decimal digit.
pub open spec fn is_digit(b: u8) -> bool {
    48 <= b <= 57
}

/// Every byte of `s` is an ASCII decimal digit.
pub open spec fn all_digits(s: Seq<u8>) -> bool {
    forall|i: int| 0 <= i < s.len() ==> is_digit(#[trigger] s[i])
}

/// The number the digit string `s` spells in base ten.
pub open spec fn digits_value(s: Seq<u8>) -> int
    decreases s.len(),
{
    if s.len() == 0 {
        0
    } else {
        digits_value(s.drop_last()) * 10 + (s.last() - 48)
    }
}

/// What a subscribe acknowledgment payload parses to: the spelled number,
/// if the payload is a non-empty digit string whose value fits a `u32`.
pub open spec fn spec_parse_index(s: Seq<u8>) -> Option<u32> {
    if s.len() > 0 && all_digits(s) && digits_value(s) <= u32::MAX {
        Some(digits_value(s) as u32)
    } else {
        None
    }
}

/// A digit string spells a non-negative number.
proof fn lemma_digits_value_nonneg(s: Seq<u8>)
    requires
        all_digits(s),
    ensures
        digits_value(s) >= 0,
    decreases s.len(),
{
    if s.len() > 0 {
        assert(all_digits(s.drop_last()));
        lemma_digits_value_nonneg(s.drop_last());
    }
}

/// Reading more digits never shrinks the spelled number.
proof fn lemma_digits_prefix_le(s: Seq<u8>, i: int)
    requires
        all_digits(s),
        0 <= i <= s.len(),
    ensures
        digits_value(s.take(i)) <= digits_value(s),
    decreases s.len() - i,
{
    if i < s.len() {
        let t = s.take(i + 1);
        assert(t.drop_last() =~= s.take(i));
        assert(all_digits(s.take(i)));
        lemma_digits_value_nonneg(s.take(i));
        assert(digits_value(t) == digits_value(s.take(i)) * 10 + (s[i] - 48));
        lemma_digits_prefix_le(s, i + 1);
    } else {
        assert(s.take(i) =~= s);
    }
}

/// Parses a subscribe acknowledgment: the decimal instrument index, or
/// `None` when the payload is empty, holds a non-digit, or spells a number
/// too large for a `u32` — exactly the payloads the protocol rejects.
pub fn parse_index(resp: &[u8]) -> (r: Option<u32>)
    ensures
        r == spec_parse_index(resp@),
{
    let n = resp.len();
    if n == 0 {
        return None;
    }
    let mut acc: u32 = 0;
    let mut i: usize = 0;
    while i < n
        invariant
            n == resp@.len(),
            i <= n,
            all_digits(resp@.take(i as int)),
            acc == digits_value(resp@.take(i as int)),
        decreases n - i,
    {
        let b = *vstd::slice::slice_index_get(resp, i);
        if b < 48 || b > 57 {
            proof {
                assert(!is_digit(resp@[i as int]));
            }
            return None;
        }
        let d: u32 = (b - 48) as u32;
        let wide: u64 = acc as u64 * 10 + d as u64;
        proof {
            assert(resp@.take(i + 1).drop_last() =~= resp@.take(i as int));
            assert(resp@.take(i + 1).last() == resp@[i as int]);
        }
        if wide > u32::MAX as u64 {
            proof {
                assert(all_digits(resp@.take(i + 1)));
                assert(digits_value(resp@.take(i + 1)) == wide);
                if all_digits(resp@) {
                    lemma_digits_prefix_le(resp@, i + 1);
                }
            }
            return None;
        }
        acc = wide as u32;
        i = i + 1;
    }
    proof {
        assert(resp@.take(n as int) =~= resp@);
    }
    Some(acc)
}

/// The unsubscribe request payload for `symbol`: the negation marker
/// followed by the symbol's UTF-8 bytes.
pub fn unsubscribe_payload(symbol: &String) -> (r: Vec<u8>)
    ensures
        r@ == seq![UNSUBSCRIBE_MARKER] + encode_utf8(symbol@),
{
    let mut out: Vec<u8> = Vec::new();
    out.push(UNSUBSCRIBE_MARKER);
    out.extend_from_slice(symbol.as_str().as_bytes());
    proof {
        assert(out@ =~= seq![UNSUBSCRIBE_MARKER] + encode_utf8(symbol@));
    }
    out
}

/// How a subscribe exchange ended.
#[derive(Debug, Clone, Copy, PartialEq, Eq, Structural)]
pub enum SubscribeOutcome {
    /// The server acknowledged with this instrument index and the symbol
    /// was newly registered under it.
    Subscribed(u32),
    /// The server acknowledged with this instrument index but the symbol
    /// was already registered: the registry is unchanged.
    AlreadyRegistered(u32),
    /// The acknowledgment did not parse as an index; the registry is
    /// unchanged and the symbol stays unsubscribed.
    Rejected,
}

/// Applies a subscribe acknowledgment to the registry: a parseable index
/// registers the symbol unless it already is registered — a duplicate
/// subscribe is a no-op — and anything else leaves the registry alone.
pub fn apply_subscribe_response(
    reg: &mut SubscriptionRegistry,
    symbol: &String,
    response: &[u8],
) -> (r: SubscribeOutcome)
    requires
        unique_symbols(old(reg)@),
    ensures
        unique_symbols(final(reg)@),
        match r {
            SubscribeOutcome::Subscribed(idx) => {
                &&& spec_parse_index(response@) == Some(idx)
                &&& !contains_symbol(old(reg)@, symbol@)
                &&& final(reg)@ == old(reg)@.push((symbol@, idx))
                &&& contains_symbol(final(reg)@, symbol@)
            },
            SubscribeOutcome::AlreadyRegistered(idx) => {
                &&& spec_parse_index(response@) == Some(idx)
                &&& contains_symbol(old(reg)@, symbol@)
                &&& final(reg)@ == old(reg)@
            },
            SubscribeOutcome::Rejected => {
                &&& spec_parse_index(response@) is None
                &&& final(reg)@ == old(reg)@
            },
        },
{
    match parse_index(response) {
        Some(idx) => {
            if reg.contains(symbol) {
                SubscribeOutcome::AlreadyRegistered(idx)
            } else {
                reg.insert(symbol, idx);
                SubscribeOutcome::Subscribed(idx)
            }
        },
        None => SubscribeOutcome::Rejected,
    }
}

} // verus!
