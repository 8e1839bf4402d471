//! Lifecycle histories of a shared counter cell.
//!
//! A cell starts empty and is driven by a sequence of attach and detach
//! operations, one per handle constructed or dropped. This module defines
//! that history abstractly and proves the library's central law: after any
//! valid history, the packed word determines — and is determined by — the
//! number of live handles of each category. In particular the sibling half
//! of the word always equals the number of live tokens, and the word is zero
//! exactly when no handle of either kind remains, which is the moment the
//! cell is released.

use vstd::prelude::*;

use crate::word::{
    sibling_part, counter_part, unit_of, CounterPart, COUNTER_UNIT, COUNT_CAP,
    lemma_pack_split,
};

verus! {

/// One step in the life of a shared counter cell: a handle of the given
/// category was created (`Attach`) or dropped (`Detach`).
pub enum CellOp {
    /// A reference of the given category was added to the cell.
    Attach(CounterPart),
    /// A reference of the given category was removed from the cell.
    Detach(CounterPart),
}

/// The number of live references of the given category after the history
/// `ops`: attaches of that category minus its detaches.
pub open spec fn live_count(ops: Seq<CellOp>, part: CounterPart) -> int
    decreases ops.len(),
{
    if ops.len() == 0 {
        0
    } else {
        live_count(ops.drop_last(), part) + match ops.last() {
            CellOp::Attach(p) => if p == part {
                1int
            } else {
                0int
            },
            CellOp::Detach(p) => if p == part {
                -1int
            } else {
                0int
            },
        }
    }
}

/// The value of the cell's word after the history `ops`: every attach added
/// its category's unit, every detach subtracted it. Stated over the
/// unbounded integers; validity of the history keeps it inside `u64`.
pub open spec fn word_total(ops: Seq<CellOp>) -> int
    decreases ops.len(),
{
    if ops.len() == 0 {
        0
    } else {
        word_total(ops.drop_last()) + match ops.last() {
            CellOp::Attach(p) => unit_of(p) as int,
            CellOp::Detach(p) => -(unit_of(p) as int),
        }
    }
}

/// A history a family of handles can actually produce: a handle is only
/// dropped while it is live, and an attach only happens while its category
/// has headroom (the capacity guard aborts the construction otherwise).
pub open spec fn valid_history(ops: Seq<CellOp>) -> bool
    decreases ops.len(),
{
    if ops.len() == 0 {
        true
    } else {
        valid_history(ops.drop_last()) && match ops.last() {
            CellOp::Attach(p) => live_count(ops.drop_last(), p) < COUNT_CAP,
            CellOp::Detach(p) => live_count(ops.drop_last(), p) >= 1,
        }
    }
}

/// The central law of the cell: after any valid history, each half of the
/// packed word equals the number of live references of its category. The
/// sibling count read from the word is therefore exactly the number of live
/// tokens, no matter how mints and drops of either kind were interleaved,
/// and is never affected by the number of live counters.
pub proof fn lemma_word_tracks_live_handles(ops: Seq<CellOp>)
    requires
        valid_history(ops),
    ensures
        0 <= live_count(ops, CounterPart::Token) <= COUNT_CAP,
        0 <= live_count(ops, CounterPart::Counter) <= COUNT_CAP,
        word_total(ops) == live_count(ops, CounterPart::Token) + COUNTER_UNIT * live_count(
            ops,
            CounterPart::Counter,
        ),
        0 <= word_total(ops) <= u64::MAX,
        sibling_part(word_total(ops) as u64) == live_count(ops, CounterPart::Token),
        counter_part(word_total(ops) as u64) == live_count(ops, CounterPart::Counter),
    decreases ops.len(),
{
    if ops.len() > 0 {
        lemma_word_tracks_live_handles(ops.drop_last());
    }
    let tokens = live_count(ops, CounterPart::Token);
    let counters = live_count(ops, CounterPart::Counter);
    lemma_pack_split(tokens as u64, counters as u64);
}

/// The cell's word returns to zero exactly when the last handle of either
/// kind is gone: storage is released not before and not after that moment.
pub proof fn lemma_word_zero_iff_no_live_handles(ops: Seq<CellOp>)
    requires
        valid_history(ops),
    ensures
        word_total(ops) == 0 <==> live_count(ops, CounterPart::Token) == 0 && live_count(
            ops,
            CounterPart::Counter,
        ) == 0,
{
    lemma_word_tracks_live_handles(ops);
}

/// One mint or drop moves the visible sibling count exactly as its category
/// dictates: a newly attached token raises it by one, a detached token
/// lowers it by one, and attaching or detaching a counter leaves it alone.
pub proof fn lemma_single_step_effect(ops: Seq<CellOp>, op: CellOp)
    requires
        valid_history(ops.push(op)),
    ensures
        valid_history(ops),
        op matches CellOp::Attach(p) ==> p == CounterPart::Token ==> sibling_part(
            word_total(ops.push(op)) as u64,
        ) == sibling_part(word_total(ops) as u64) + 1,
        op matches CellOp::Detach(p) ==> p == CounterPart::Token ==> sibling_part(
            word_total(ops.push(op)) as u64,
        ) == sibling_part(word_total(ops) as u64) - 1,
        op matches CellOp::Attach(p) ==> p == CounterPart::Counter ==> sibling_part(
            word_total(ops.push(op)) as u64,
        ) == sibling_part(word_total(ops) as u64),
        op matches CellOp::Detach(p) ==> p == CounterPart::Counter ==> sibling_part(
            word_total(ops.push(op)) as u64,
        ) == sibling_part(word_total(ops) as u64),
{
    let stepped = ops.push(op);
    assert(stepped.drop_last() =~= ops);
    assert(stepped.last() == op);
    lemma_word_tracks_live_handles(ops);
    lemma_word_tracks_live_handles(stepped);
}

/// The word after a valid history depends only on how many handles of each
/// category are live at its end: minting everything and then dropping
/// everything reaches the same cell state as any interleaving of the same
/// net effect.
pub proof fn lemma_word_depends_only_on_live_counts(ops1: Seq<CellOp>, ops2: Seq<CellOp>)
    requires
        valid_history(ops1),
        valid_history(ops2),
        live_count(ops1, CounterPart::Token) == live_count(ops2, CounterPart::Token),
        live_count(ops1, CounterPart::Counter) == live_count(ops2, CounterPart::Counter),
    ensures
        word_total(ops1) == word_total(ops2),
{
    lemma_word_tracks_live_handles(ops1);
    lemma_word_tracks_live_handles(ops2);
}

} // verus!

