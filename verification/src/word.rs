//! The packed-word model of the shared counter cell.
//!
//! The cell backing a family of handles is a single 64-bit word, logically
//! split into two independent 32-bit sub-counts: the low half counts live
//! [`SiblingToken`](crate::SiblingToken) instances (the externally visible
//! sibling count), the high half counts live
//! [`SiblingCounter`](crate::SiblingCounter) instances. This module states
//! what the packing means and proves the laws the handle lifecycle relies
//! on: attaching or detaching one category's unit changes that category's
//! sub-count by exactly one and leaves the other untouched, and the word
//! equals one category's unit exactly when that category holds the last
//! remaining reference of either kind.

use vstd::prelude::*;

verus! {

/// The category a reference to the shared cell belongs to.
///
/// A `Token` reference is counted as a sibling; a `Counter` reference is an
/// observer and never shows up in the sibling count.
#[derive(Clone, Copy, PartialEq, Eq, Structural)]
pub enum CounterPart {
    /// A reference held by a [`SiblingToken`](crate::SiblingToken).
    Token,
    /// A reference held by a [`SiblingCounter`](crate::SiblingCounter).
    Counter,
}

/// The amount one token reference adds to the packed word: one unit of the
/// low half.
pub const TOKEN_UNIT: u64 = 1;

/// The amount one counter reference adds to the packed word: one unit of the
/// high half.
pub const COUNTER_UNIT: u64 = 0x1_0000_0000;

/// Each sub-count must stay below this bound. The margin of a million below
/// `u32::MAX` leaves room to detect runaway growth before a sub-count could
/// silently carry into its neighbour.
pub const COUNT_CAP: u32 = u32::MAX - 1_000_000;

/// The sibling half of the packed word: its low 32 bits.
pub open spec fn sibling_part(word: u64) -> u64 {
    word & 0xFFFF_FFFFu64
}

/// The counter half of the packed word: its high 32 bits.
pub open spec fn counter_part(word: u64) -> u64 {
    word >> 32u64
}

/// The unit a reference of the given category occupies in the packed word.
pub open spec fn unit_of(part: CounterPart) -> u64 {
    match part {
        CounterPart::Token => TOKEN_UNIT,
        CounterPart::Counter => COUNTER_UNIT,
    }
}

/// The sub-count of the given category held in the packed word.
pub open spec fn count_of(word: u64, part: CounterPart) -> u64 {
    match part {
        CounterPart::Token => sibling_part(word),
        CounterPart::Counter => counter_part(word),
    }
}

/// The category the given one is packed next to.
pub open spec fn other_part(part: CounterPart) -> CounterPart {
    match part {
        CounterPart::Token => CounterPart::Counter,
        CounterPart::Counter => CounterPart::Token,
    }
}

/// Splits a packed word into `(sibling_count, counter_count)`.
pub fn split_counters(counters: u64) -> (r: (u32, u32))
    ensures
        r.0 == sibling_part(counters),
        r.1 == counter_part(counters),
        counters == sibling_part(counters) + COUNTER_UNIT * counter_part(counters),
{
    proof {
        lemma_split_bounds(counters);
        assert(counters == (counters & 0xFFFF_FFFFu64) + 0x1_0000_0000u64 * (counters >> 32u64))
            by (bit_vector);
    }
    ((counters & 0xFFFF_FFFF) as u32, (counters >> 32) as u32)
}

/// Both halves of a packed word fit in 32 bits.
pub proof fn lemma_split_bounds(word: u64)
    by (bit_vector)
    ensures
        word & 0xFFFF_FFFFu64 <= 0xFFFF_FFFFu64,
        word >> 32u64 <= 0xFFFF_FFFFu64,
{
}

/// Packing two 32-bit counts into one word and splitting it again recovers
/// both counts.
pub proof fn lemma_pack_split(siblings: u64, counters: u64)
    by (bit_vector)
    requires
        siblings <= 0xFFFF_FFFFu64,
        counters <= 0xFFFF_FFFFu64,
    ensures
        siblings + COUNTER_UNIT * counters <= u64::MAX,
        sibling_part((siblings + COUNTER_UNIT * counters) as u64) == siblings,
        counter_part((siblings + COUNTER_UNIT * counters) as u64) == counters,
{
}

/// Attaching a token reference increases the sibling half by exactly one and
/// leaves the counter half unchanged: minting or cloning a token raises the
/// visible group size by one and nothing else.
pub proof fn lemma_attach_token(word: u64)
    by (bit_vector)
    requires
        sibling_part(word) < 0xFFFF_FFFFu64,
    ensures
        word + TOKEN_UNIT <= u64::MAX,
        sibling_part((word + TOKEN_UNIT) as u64) == sibling_part(word) + 1,
        counter_part((word + TOKEN_UNIT) as u64) == counter_part(word),
{
}

/// Attaching a counter reference increases the counter half by exactly one
/// and leaves the sibling half unchanged: cloning a counter never changes
/// the visible group size.
pub proof fn lemma_attach_counter(word: u64)
    by (bit_vector)
    requires
        counter_part(word) < 0xFFFF_FFFFu64,
    ensures
        word + COUNTER_UNIT <= u64::MAX,
        sibling_part((word + COUNTER_UNIT) as u64) == sibling_part(word),
        counter_part((word + COUNTER_UNIT) as u64) == counter_part(word) + 1,
{
}

/// Detaching a token reference decreases the sibling half by exactly one and
/// leaves the counter half unchanged: dropping a token lowers the visible
/// group size by one and nothing else.
pub proof fn lemma_detach_token(word: u64)
    by (bit_vector)
    requires
        sibling_part(word) >= 1,
    ensures
        word - TOKEN_UNIT >= 0,
        sibling_part((word - TOKEN_UNIT) as u64) == sibling_part(word) - 1,
        counter_part((word - TOKEN_UNIT) as u64) == counter_part(word),
{
}

/// Detaching a counter reference decreases the counter half by exactly one
/// and leaves the sibling half unchanged: dropping a counter never changes
/// the visible group size.
pub proof fn lemma_detach_counter(word: u64)
    by (bit_vector)
    requires
        counter_part(word) >= 1,
    ensures
        word - COUNTER_UNIT >= 0,
        sibling_part((word - COUNTER_UNIT) as u64) == sibling_part(word),
        counter_part((word - COUNTER_UNIT) as u64) == counter_part(word) - 1,
{
}

/// The exact-depletion test is sound: the whole word equals one category's
/// unit exactly when that category holds a single reference and the other
/// category holds none. A detach that reads this pre-update value therefore
/// removed the last reference of either kind.
pub proof fn lemma_exact_depletion(word: u64, part: CounterPart)
    ensures
        word == unit_of(part) <==> count_of(word, part) == 1 && count_of(
            word,
            other_part(part),
        ) == 0,
{
    match part {
        CounterPart::Token => {
            assert(word == 1u64 <==> (word & 0xFFFF_FFFFu64 == 1 && word >> 32u64 == 0))
                by (bit_vector);
        },
        CounterPart::Counter => {
            assert(word == 0x1_0000_0000u64 <==> (word >> 32u64 == 1 && word & 0xFFFF_FFFFu64
                == 0)) by (bit_vector);
        },
    }
}

} // verus!
