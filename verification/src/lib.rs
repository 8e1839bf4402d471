//! A lock-free shared sibling counter.
//!
//! An arbitrary number of [`SiblingToken`] handles register themselves as
//! members of a dynamic group, while any number of cheap [`SiblingCounter`]
//! handles observe the current group size without being counted themselves.
//! All handles derived from one root share a single heap-allocated atomic
//! word; the word's two 32-bit halves count the live handles of each kind
//! ([`word`]), and the cell is released exactly when the last handle of
//! either kind is dropped.
//!
//! The packing laws — what attaching and detaching a reference of each
//! category does to the visible sibling count, and how the word tracks the
//! live handles over a whole lifecycle — are stated and proved in [`word`]
//! and [`history`].

pub mod history;
pub mod word;

pub use word::split_counters;

use std::sync::Arc;
use std::sync::atomic::{AtomicU64, Ordering};
use vstd::prelude::*;

verus! {

use crate::word::{unit_of, CounterPart, COUNT_CAP};

/// Relies on `Arc::clone`: the returned handle shares the callee's
/// allocation, so it holds the very same cell and its value is equal.
#[verifier::external_body]
fn clone_cell(cell: &Arc<AtomicU64>) -> (r: Arc<AtomicU64>)
    ensures
        r == *cell,
{
    Arc::clone(cell)
}

/// Relies on `AtomicU64::fetch_add`: atomically adds `unit` to the shared
/// word and returns the value the word held just before the addition. The
/// word is shared with other threads, so nothing ties the result to any
/// earlier or later read of the cell.
#[verifier::external_body]
fn fetch_add_relaxed(cell: &Arc<AtomicU64>, unit: u64) -> (old_word: u64)
    no_unwind
{
    cell.fetch_add(unit, Ordering::Relaxed)
}

/// Relies on `AtomicU64::fetch_sub`: atomically subtracts `unit` from the
/// shared word and returns the value the word held just before the
/// subtraction, with the same caveat as `fetch_add_relaxed`.
#[verifier::external_body]
fn fetch_sub_relaxed(cell: &Arc<AtomicU64>, unit: u64) -> (old_word: u64)
    opens_invariants none
    no_unwind
{
    cell.fetch_sub(unit, Ordering::Relaxed)
}

/// Relies on `AtomicU64::load`: returns the value the shared word held at
/// some instant during the call.
#[verifier::external_body]
fn load_relaxed(cell: &Arc<AtomicU64>) -> (word: u64)
    no_unwind
{
    cell.load(Ordering::Relaxed)
}

/// Relies on `Option::expect`: hands back the value inside `Some`, and
/// panics with the given message on `None`, so a call only ever returns
/// when the guard holds a value.
#[verifier::external_body]
fn unwrap_or_abort(guard: Option<bool>, message: &str) -> (r: bool)
    ensures
        guard == Some(r),
{
    guard.expect(message)
}

/// The unit the given category occupies in the packed word.
fn part_unit(part: CounterPart) -> (one: u64)
    ensures
        one == unit_of(part),
    opens_invariants none
    no_unwind
{
    match part {
        CounterPart::Token => word::TOKEN_UNIT,
        CounterPart::Counter => word::COUNTER_UNIT,
    }
}

/// Allocates a fresh cell holding exactly one reference of the given
/// category: the root handle the cell is created for.
fn new_reference_counters(initiator: CounterPart) -> Arc<AtomicU64> {
    let one = part_unit(initiator);
    Arc::new(AtomicU64::new(one))
}

/// Attaches one reference of the given category: atomically adds its unit
/// to the packed word. Aborts the operation (by panicking before the new
/// handle comes into existence) if either sub-count had already reached
/// [`COUNT_CAP`], so a sub-count can never silently carry into the other
/// half of the word.
fn add_reference(cell: &Arc<AtomicU64>, part: CounterPart) {
    let one = part_unit(part);
    let old_word = fetch_add_relaxed(cell, one);
    let (siblings, counters) = split_counters(old_word);
    let _ = unwrap_or_abort(
        if siblings < COUNT_CAP {
            Some(true)
        } else {
            None
        },
        "too many siblings",
    );
    let _ = unwrap_or_abort(
        if counters < COUNT_CAP {
            Some(true)
        } else {
            None
        },
        "too many counter",
    );
}

/// Detaches one reference of the given category: atomically subtracts its
/// unit from the packed word. When the pre-update word equals that unit
/// alone, this detach removed the last reference of either kind
/// ([`word::lemma_exact_depletion`]); the cell is released at that same
/// moment, as the departing handle lets go of the last shared-ownership
/// pointer to it.
fn remove_reference(cell: &Arc<AtomicU64>, part: CounterPart)
    opens_invariants none
    no_unwind
{
    let one = part_unit(part);
    fetch_sub_relaxed(cell, one);
}

/// Reads the sibling half of the cell's word: the number of live tokens at
/// some instant during the call. The value may be stale the moment it is
/// returned, since other threads can mint or drop siblings concurrently.
fn read_sibling_count(cell: &Arc<AtomicU64>) -> (count: usize)
    ensures
        count <= u32::MAX as usize,
{
    let word = load_relaxed(cell);
    let (siblings, _) = split_counters(word);
    siblings as usize
}

/// A counter that can mark new siblings and return their total count.
///
/// This type can be seen conceptually as a weak pointer to the underlying
/// counter (with [`SiblingToken`] being a strong pointer): instances of
/// `SiblingCounter` are *not* counted as siblings, and none need to be kept
/// alive for the underlying counter to work. As long as any token is alive,
/// new counters (and new tokens) can be created from it.
///
/// Handles can be cloned freely and passed between threads.
///
/// # Panics
///
/// Each underlying counter supports at most `u32::MAX - 1_000_000` live
/// `SiblingCounter` instances; creating more panics.
pub struct SiblingCounter {
    counters: Arc<AtomicU64>,
}

impl SiblingCounter {
    /// The shared counter cell this handle refers to. Handles minted or
    /// cloned from one another share their cell; handles of independent
    /// roots do not.
    pub closed spec fn cell(&self) -> AtomicU64 {
        *self.counters
    }

    /// Creates a new counter with sibling count of 0.
    pub fn new() -> Self {
        SiblingCounter { counters: new_reference_counters(CounterPart::Counter) }
    }

    /// Creates a counter handle for an existing cell, attaching one counter
    /// reference to it.
    fn with_counters(counters: &Arc<AtomicU64>) -> (r: Self)
        ensures
            r.cell() == **counters,
    {
        add_reference(counters, CounterPart::Counter);
        SiblingCounter { counters: clone_cell(counters) }
    }

    /// Creates a new token that refers to the same underlying counter, thus
    /// incrementing the sibling count by 1.
    pub fn add_sibling(&self) -> (r: SiblingToken)
        ensures
            r.cell() == self.cell(),
    {
        SiblingToken::with_counters(&self.counters)
    }

    /// Returns the total number of siblings (i.e. the total number of
    /// existing tokens). The value is a momentary snapshot: concurrent
    /// mints and drops elsewhere may change it before the caller looks.
    pub fn sibling_count(&self) -> (count: usize)
        ensures
            count <= u32::MAX as usize,
    {
        read_sibling_count(&self.counters)
    }
}

impl Default for SiblingCounter {
    /// Creates a new counter with sibling count of 0.
    fn default() -> Self {
        SiblingCounter::new()
    }
}

impl Clone for SiblingCounter {
    /// Creates a new instance of `SiblingCounter` that refers to the same
    /// underlying counter. The sibling count is not affected.
    fn clone(&self) -> (r: Self)
        ensures
            r.cell() == self.cell(),
    {
        SiblingCounter::with_counters(&self.counters)
    }
}

impl Drop for SiblingCounter {
    /// Detaches this handle's counter reference; the underlying counter is
    /// dropped if this instance was the last thing that referred to it.
    fn drop(&mut self)
        opens_invariants none
        no_unwind
    {
        remove_reference(&self.counters, CounterPart::Counter);
    }
}

/// A token that marks a sibling.
///
/// A sibling is marked by making it retain an instance of `SiblingToken`:
/// each live token counts as exactly one sibling, and dropping the token
/// decrements the sibling count. Tokens can be cloned; each clone refers to
/// the same underlying counter and counts as one more sibling.
///
/// This type can be seen conceptually as a strong pointer to the underlying
/// counter (with [`SiblingCounter`] being a weak pointer).
///
/// # Panics
///
/// Each underlying counter supports at most `u32::MAX - 1_000_000` live
/// siblings; creating more panics.
pub struct SiblingToken {
    counters: Arc<AtomicU64>,
}

impl SiblingToken {
    /// The shared counter cell this handle refers to. Handles minted or
    /// cloned from one another share their cell; handles of independent
    /// roots do not.
    pub closed spec fn cell(&self) -> AtomicU64 {
        *self.counters
    }

    /// Creates a new token with sibling count of 1.
    pub fn new() -> Self {
        SiblingToken { counters: new_reference_counters(CounterPart::Token) }
    }

    /// Creates a token handle for an existing cell, attaching one token
    /// reference to it.
    fn with_counters(counters: &Arc<AtomicU64>) -> (r: Self)
        ensures
            r.cell() == **counters,
    {
        add_reference(counters, CounterPart::Token);
        SiblingToken { counters: clone_cell(counters) }
    }

    /// Creates a new instance of [`SiblingCounter`] that refers to the same
    /// underlying counter.
    pub fn counter(&self) -> (r: SiblingCounter)
        ensures
            r.cell() == self.cell(),
    {
        SiblingCounter::with_counters(&self.counters)
    }

    /// Creates a new token that refers to the same underlying counter, thus
    /// incrementing the sibling count by 1.
    ///
    /// Cloning the token has the same effect, under the same contract.
    pub fn add_sibling(&self) -> (r: SiblingToken)
        ensures
            r.cell() == self.cell(),
    {
        self.clone()
    }

    /// Returns the total number of siblings (i.e. the total number of
    /// existing tokens, including `self`). The value is a momentary
    /// snapshot: concurrent mints and drops elsewhere may change it before
    /// the caller looks.
    pub fn sibling_count(&self) -> (count: usize)
        ensures
            count <= u32::MAX as usize,
    {
        read_sibling_count(&self.counters)
    }
}

impl Default for SiblingToken {
    /// Creates a new token with sibling count of 1.
    fn default() -> Self {
        SiblingToken::new()
    }
}

impl Clone for SiblingToken {
    /// Creates a new token that refers to the same underlying counter, thus
    /// incrementing the sibling count by 1.
    ///
    /// Calling [`add_sibling()`](SiblingToken::add_sibling()) has the same
    /// effect.
    fn clone(&self) -> (r: Self)
        ensures
            r.cell() == self.cell(),
    {
        SiblingToken::with_counters(&self.counters)
    }
}

impl Drop for SiblingToken {
    /// Reduces the sibling count by 1.
    ///
    /// If the dropped instance is the last thing that refers to the
    /// underlying counter, the underlying counter is dropped.
    fn drop(&mut self)
        opens_invariants none
        no_unwind
    {
        remove_reference(&self.counters, CounterPart::Token);
    }
}

} // verus!
