use atomic_sibling_counter::word::{COUNTER_UNIT, COUNT_CAP, TOKEN_UNIT};
use atomic_sibling_counter::{split_counters, SiblingCounter, SiblingToken};

#[test]
fn basic_counting() {
    let counter = SiblingCounter::new();
    assert_eq!(counter.sibling_count(), 0);

    let counter2 = counter.clone();
    assert_eq!(counter.sibling_count(), 0);
    assert_eq!(counter2.sibling_count(), 0);

    let sibling1 = counter.add_sibling();
    assert_eq!(counter.sibling_count(), 1);
    assert_eq!(counter2.sibling_count(), 1);
    assert_eq!(sibling1.sibling_count(), 1);

    let sibling2 = sibling1.add_sibling();
    assert_eq!(counter.sibling_count(), 2);
    assert_eq!(counter2.sibling_count(), 2);
    assert_eq!(sibling1.sibling_count(), 2);
    assert_eq!(sibling2.sibling_count(), 2);

    let sibling3 = sibling2.clone();
    assert_eq!(counter.sibling_count(), 3);
    assert_eq!(counter2.sibling_count(), 3);
    assert_eq!(sibling1.sibling_count(), 3);
    assert_eq!(sibling2.sibling_count(), 3);
    assert_eq!(sibling3.sibling_count(), 3);

    drop(sibling3);
    assert_eq!(counter.sibling_count(), 2);
    assert_eq!(counter2.sibling_count(), 2);
    assert_eq!(sibling1.sibling_count(), 2);
    assert_eq!(sibling2.sibling_count(), 2);

    drop(sibling1);
    assert_eq!(counter.sibling_count(), 1);
    assert_eq!(counter2.sibling_count(), 1);
    assert_eq!(sibling2.sibling_count(), 1);

    drop(sibling2);
    assert_eq!(counter.sibling_count(), 0);
    assert_eq!(counter2.sibling_count(), 0);

    let sibling4 = counter2.add_sibling();
    assert_eq!(counter.sibling_count(), 1);

    drop(counter2);
    drop(counter);
    assert_eq!(sibling4.sibling_count(), 1);

    let counter3 = sibling4.counter();
    assert_eq!(counter3.sibling_count(), 1);
    assert_eq!(sibling4.sibling_count(), 1);
}

#[test]
fn one_cell_per_root_survives_any_drop_order() {
    // All handles derived from one root share a single cell, and every
    // handle stays usable in any drop order until it is itself dropped —
    // whichever kind of handle is created first or dropped last.
    {
        // Start with a counter
        let counter = SiblingCounter::new();
        assert_eq!(counter.sibling_count(), 0);

        let token = counter.add_sibling();
        assert_eq!(counter.sibling_count(), 1);

        drop(token);
        assert_eq!(counter.sibling_count(), 0);

        drop(counter);
    }

    {
        // Start with a token
        let token = SiblingToken::new();
        assert_eq!(token.sibling_count(), 1);

        let counter = token.counter();
        assert_eq!(counter.sibling_count(), 1);

        drop(counter);
        assert_eq!(token.sibling_count(), 1);

        drop(token);
    }
}

#[test]
fn scenario_counts_follow_live_tokens() {
    let c = SiblingCounter::new();
    assert_eq!(c.sibling_count(), 0);

    let c2 = c.clone();
    assert_eq!(c.sibling_count(), 0);
    assert_eq!(c2.sibling_count(), 0);

    let t1 = c.add_sibling();
    assert_eq!(c.sibling_count(), 1);
    assert_eq!(c2.sibling_count(), 1);
    assert_eq!(t1.sibling_count(), 1);

    let t2 = t1.add_sibling();
    assert_eq!(c.sibling_count(), 2);
    assert_eq!(c2.sibling_count(), 2);
    assert_eq!(t1.sibling_count(), 2);
    assert_eq!(t2.sibling_count(), 2);

    drop(t1);
    assert_eq!(c.sibling_count(), 1);
    assert_eq!(c2.sibling_count(), 1);
    assert_eq!(t2.sibling_count(), 1);

    drop(t2);
    assert_eq!(c.sibling_count(), 0);
    assert_eq!(c2.sibling_count(), 0);

    let t3 = c2.add_sibling();
    assert_eq!(c.sibling_count(), 1);
    assert_eq!(c2.sibling_count(), 1);
    assert_eq!(t3.sibling_count(), 1);

    drop(c);
    drop(c2);
    assert_eq!(t3.sibling_count(), 1);

    let c3 = t3.counter();
    assert_eq!(c3.sibling_count(), 1);
}

#[test]
fn cloning_counters_never_changes_the_count() {
    let token = SiblingToken::new();
    let counter = token.counter();
    assert_eq!(token.sibling_count(), 1);

    let more = vec![counter.clone(), counter.clone(), counter.clone()];
    assert_eq!(token.sibling_count(), 1);
    for extra in &more {
        assert_eq!(extra.sibling_count(), 1);
    }

    drop(more);
    assert_eq!(token.sibling_count(), 1);
    assert_eq!(counter.sibling_count(), 1);
}

#[test]
fn each_token_counts_exactly_once() {
    let counter = SiblingCounter::new();
    let mut tokens = Vec::new();
    for i in 0..10 {
        assert_eq!(counter.sibling_count(), i);
        tokens.push(counter.add_sibling());
        assert_eq!(counter.sibling_count(), i + 1);
    }
    while let Some(token) = tokens.pop() {
        let before = token.sibling_count();
        drop(token);
        assert_eq!(counter.sibling_count(), before - 1);
    }
    assert_eq!(counter.sibling_count(), 0);
}

#[test]
fn interleaved_and_sequential_drops_agree() {
    // Mint all then drop all...
    let sequential = SiblingCounter::new();
    let a = sequential.add_sibling();
    let b = sequential.add_sibling();
    let c = sequential.add_sibling();
    drop(a);
    drop(b);
    assert_eq!(sequential.sibling_count(), 1);

    // ...reaches the same state as interleaving mints and drops.
    let interleaved = SiblingCounter::new();
    let d = interleaved.add_sibling();
    let e = interleaved.add_sibling();
    drop(d);
    let f = interleaved.add_sibling();
    drop(e);
    assert_eq!(interleaved.sibling_count(), 1);

    assert_eq!(c.sibling_count(), f.sibling_count());
}

#[test]
fn default_matches_fresh_construction() {
    let counter = SiblingCounter::default();
    assert_eq!(counter.sibling_count(), 0);

    let token = SiblingToken::default();
    assert_eq!(token.sibling_count(), 1);
}

#[test]
fn split_counters_exact_values() {
    assert_eq!(split_counters(0), (0, 0));
    assert_eq!(split_counters(1), (1, 0));
    assert_eq!(split_counters(0x1_0000_0000), (0, 1));
    assert_eq!(split_counters(0x5_0000_0003), (3, 5));
    assert_eq!(split_counters(u64::MAX), (u32::MAX, u32::MAX));
}

#[test]
fn units_occupy_their_own_half() {
    assert_eq!(split_counters(TOKEN_UNIT), (1, 0));
    assert_eq!(split_counters(COUNTER_UNIT), (0, 1));
    assert_eq!(split_counters(TOKEN_UNIT + COUNTER_UNIT), (1, 1));
    assert_eq!(COUNT_CAP, u32::MAX - 1_000_000);
}
