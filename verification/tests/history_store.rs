//! Tests of the bounded-history ring buffer.

use netspeedmon::inmemory::{InMemory, DEFAULT_HISTORY_SIZE};
use netspeedmon::measure::Measurement;

fn m(v: f64) -> Measurement {
    Measurement::new(f64::to_bits(v), f64::to_bits(v), f64::to_bits(v))
}

#[test]
fn new_empty() {
    assert!(InMemory::try_new(0).is_none());
}

#[test]
fn full() {
    let mut db = InMemory::new(5);
    assert!(db.retrieve_most_recent().is_none());

    // First fill it up

    let m1 = m(1.);
    db.store(1, m1);
    assert_eq!(db.retrieve_most_recent(), Some((1, m1)));

    let m2 = m(2.);
    db.store(2, m2);
    assert_eq!(db.retrieve_most_recent(), Some((2, m2)));

    let m3 = m(3.);
    db.store(3, m3);
    assert_eq!(db.retrieve_most_recent(), Some((3, m3)));

    let m4 = m(4.);
    db.store(4, m4);
    assert_eq!(db.retrieve_most_recent(), Some((4, m4)));

    let m5 = m(5.);
    db.store(5, m5);
    assert_eq!(db.retrieve_most_recent(), Some((5, m5)));

    // Now start overflowing it and make sure the ring buffer works as expected

    let m9 = m(9.);
    db.store(6, m9);
    assert_eq!(db.retrieve_most_recent(), Some((6, m9)));

    let m8 = m(8.);
    db.store(7, m8);
    assert_eq!(db.retrieve_most_recent(), Some((7, m8)));

    let history = db.retrieve_history();
    let history = history.iter().map(|(_, m)| *m).collect::<Vec<_>>();
    assert_eq!(history, vec![m3, m4, m5, m9, m8]);

    let m7 = m(7.);
    db.store(8, m7);
    assert_eq!(db.retrieve_most_recent(), Some((8, m7)));

    let m6 = m(6.);
    db.store(9, m6);
    assert_eq!(db.retrieve_most_recent(), Some((9, m6)));

    let m5b = m(5.);
    db.store(10, m5b);
    assert_eq!(db.retrieve_most_recent(), Some((10, m5b)));

    let history = db.retrieve_history();
    let history = history.iter().map(|(_, m)| *m).collect::<Vec<_>>();
    assert_eq!(history, vec![m9, m8, m7, m6, m5b]);
}

#[test]
fn fill_keeps_arrival_order() {
    let mut db = InMemory::new(4);
    for i in 0..3i64 {
        db.store(i, m(i as f64));
    }
    let history = db.retrieve_history();
    assert_eq!(history.len(), 3);
    for i in 0..3i64 {
        assert_eq!(history[i as usize], (i, m(i as f64)));
    }
}

#[test]
fn overwrite_evicts_exactly_the_oldest() {
    let mut db = InMemory::new(3);
    for i in 0..4i64 {
        db.store(i, m(i as f64));
        assert_eq!(db.retrieve_most_recent(), Some((i, m(i as f64))));
    }
    let history = db.retrieve_history();
    assert_eq!(
        history,
        vec![(1, m(1.)), (2, m(2.)), (3, m(3.))],
        "storing capacity + 1 samples must evict exactly the first"
    );
}

#[test]
fn capacity_one_keeps_only_the_latest() {
    let mut db = InMemory::new(1);
    db.store(1, m(1.));
    db.store(2, m(2.));
    db.store(3, m(3.));
    assert_eq!(db.retrieve_most_recent(), Some((3, m(3.))));
    assert_eq!(db.retrieve_history(), vec![(3, m(3.))]);
}

#[test]
fn history_is_sorted_by_timestamp() {
    // Timestamps that go backwards: the snapshot must still come out
    // ascending, whatever the arrival order was.
    let mut db = InMemory::new(5);
    db.store(30, m(1.));
    db.store(10, m(2.));
    db.store(20, m(3.));
    let history = db.retrieve_history();
    assert_eq!(history, vec![(10, m(2.)), (20, m(3.)), (30, m(1.))]);
}

#[test]
fn history_with_equal_timestamps_keeps_every_entry() {
    let mut db = InMemory::new(4);
    db.store(7, m(1.));
    db.store(7, m(2.));
    db.store(7, m(3.));
    let history = db.retrieve_history();
    assert_eq!(history.len(), 3);
    assert!(history.iter().all(|(ts, _)| *ts == 7));
    for v in [1., 2., 3.] {
        assert!(history.iter().any(|(_, sample)| *sample == m(v)));
    }
}

#[test]
fn default_store_is_empty_with_default_capacity() {
    let mut db = InMemory::default();
    assert!(db.retrieve_most_recent().is_none());
    assert!(db.retrieve_history().is_empty());
    for i in 0..(DEFAULT_HISTORY_SIZE as i64 + 5) {
        db.store(i, m(0.));
    }
    assert_eq!(db.retrieve_history().len(), DEFAULT_HISTORY_SIZE);
}

#[test]
fn empty_store_has_no_most_recent() {
    let db = InMemory::new(3);
    assert_eq!(db.retrieve_most_recent(), None);
    assert!(db.retrieve_history().is_empty());
}
