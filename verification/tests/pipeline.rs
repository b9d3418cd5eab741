use keystats::aggregate::Aggregator;
use keystats::collector::Collector;
use keystats::event::DecodedEvent;
use keystats::event::EVENT_RECORD_LEN;
use keystats::event::EventKind;
use keystats::event::category_kind;
use keystats::event::decode_event;
use keystats::tracker::ModifierTracker;
use keystats::tracker::PressedCombination;

fn combo(ctrl: bool, shift: bool, alt: bool, meta: bool, code: u16) -> PressedCombination {
    PressedCombination { shift, alt, meta, ctrl, code }
}

fn record(buf: &mut [u8; EVENT_RECORD_LEN], category: u16, code: u16, value: i32) {
    *buf = [0; EVENT_RECORD_LEN];
    buf[16..18].copy_from_slice(&category.to_le_bytes());
    buf[18..20].copy_from_slice(&code.to_le_bytes());
    buf[20..24].copy_from_slice(&value.to_le_bytes());
}

#[test]
fn decode_well_sized_record() {
    let mut buf = [0u8; EVENT_RECORD_LEN];
    record(&mut buf, 1, 30, 1);
    assert_eq!(
        decode_event(&buf),
        Some(DecodedEvent { category: 1, code: 30, value: 1 })
    );
}

#[test]
fn decode_negative_value() {
    let mut buf = [0u8; EVENT_RECORD_LEN];
    record(&mut buf, 1, 999, -10);
    assert_eq!(
        decode_event(&buf),
        Some(DecodedEvent { category: 1, code: 999, value: -10 })
    );
}

#[test]
fn decode_rejects_wrong_sizes() {
    assert_eq!(decode_event(&[]), None);
    assert_eq!(decode_event(&[0u8; 23]), None);
    assert_eq!(decode_event(&[0u8; 25]), None);
}

#[test]
fn category_mapping_is_closed() {
    assert_eq!(category_kind(0), EventKind::Sync);
    assert_eq!(category_kind(1), EventKind::Key);
    assert_eq!(category_kind(4), EventKind::Switch);
    assert_eq!(category_kind(20), EventKind::Repeat);
    assert_eq!(category_kind(2), EventKind::Other);
    assert_eq!(category_kind(21), EventKind::Other);
}

#[test]
fn ctrl_then_a_records_both_combinations() {
    // press ctrl(29), press 30("a")
    let mut t = ModifierTracker::new();
    let mut agg = Aggregator::new();
    if let Some(c) = t.handle_key(29, 1) {
        agg.record(c);
    }
    if let Some(c) = t.handle_key(30, 1) {
        agg.record(c);
    }
    assert_eq!(
        agg.entries,
        vec![
            (combo(true, false, false, false, 29), 1),
            (combo(true, false, false, false, 30), 1),
        ]
    );
}

#[test]
fn released_shift_leaves_no_trace() {
    // press shift(42), release shift(42), press 16("q")
    let mut t = ModifierTracker::new();
    let mut agg = Aggregator::new();
    for (code, value) in [(42u16, 1i32), (42, 0), (16, 1)] {
        if let Some(c) = t.handle_key(code, value) {
            agg.record(c);
        }
    }
    assert_eq!(
        agg.entries,
        vec![
            (combo(false, true, false, false, 42), 1),
            (combo(false, false, false, false, 16), 1),
        ]
    );
}

#[test]
fn left_and_right_variants_share_one_family() {
    let mut t = ModifierTracker::new();
    // press left ctrl, release right ctrl: the family is up again
    t.handle_key(29, 1);
    t.handle_key(97, 0);
    let c = t.handle_key(16, 1).unwrap();
    assert_eq!(c, combo(false, false, false, false, 16));
    // press right shift, release left shift: also one family
    t.handle_key(54, 1);
    t.handle_key(42, 0);
    let c = t.handle_key(16, 1).unwrap();
    assert_eq!(c, combo(false, false, false, false, 16));
}

#[test]
fn held_modifiers_stamp_exact_flags() {
    let mut t = ModifierTracker::new();
    let mut agg = Aggregator::new();
    t.handle_key(29, 1); // ctrl down
    t.handle_key(54, 1); // right shift down
    let c = t.handle_key(30, 1).unwrap();
    assert_eq!(c, combo(true, true, false, false, 30));
    agg.record(c);
    // releasing the modifiers afterward does not alter the recorded count
    t.handle_key(29, 0);
    t.handle_key(54, 0);
    assert_eq!(agg.entries, vec![(combo(true, true, false, false, 30), 1)]);
}

#[test]
fn repeats_count_once_per_repeat() {
    let mut t = ModifierTracker::new();
    let mut agg = Aggregator::new();
    for (code, value) in [(16u16, 1i32), (16, 2), (16, 2), (16, 2)] {
        if let Some(c) = t.handle_key(code, value) {
            agg.record(c);
        }
    }
    assert_eq!(agg.entries, vec![(combo(false, false, false, false, 16), 4)]);
}

#[test]
fn modifier_repeats_are_ignored() {
    let mut t = ModifierTracker::new();
    let mut agg = Aggregator::new();
    for (code, value) in [(29u16, 1i32), (29, 2), (29, 2)] {
        if let Some(c) = t.handle_key(code, value) {
            agg.record(c);
        }
    }
    assert_eq!(agg.entries, vec![(combo(true, false, false, false, 29), 1)]);
}

#[test]
fn unknown_values_emit_nothing() {
    let mut t = ModifierTracker::new();
    assert_eq!(t.handle_key(16, 3), None);
    assert_eq!(t.handle_key(29, -1), None);
    assert_eq!(t.handle_key(16, 0), None);
}

#[test]
fn total_counts_match_qualifying_events() {
    // every press counts, ordinary repeats count, releases and
    // modifier repeats do not: 6 qualifying events below
    let events = [
        (29u16, 1i32), // ctrl press         -> counts
        (29, 2),       // ctrl repeat        -> ignored
        (30, 1),       // 'a' press          -> counts
        (30, 2),       // 'a' repeat         -> counts
        (30, 0),       // 'a' release        -> ignored
        (29, 0),       // ctrl release       -> ignored
        (42, 1),       // shift press        -> counts
        (16, 1),       // 'q' press          -> counts
        (16, 2),       // 'q' repeat         -> counts
    ];
    let mut t = ModifierTracker::new();
    let mut agg = Aggregator::new();
    for (code, value) in events {
        if let Some(c) = t.handle_key(code, value) {
            agg.record(c);
        }
    }
    let total: u64 = agg.entries.iter().map(|e| e.1).sum();
    assert_eq!(total, 6);
}

#[test]
fn collector_snapshots_on_threshold() {
    let mut col = Collector::new(2);
    let mut buf = [0u8; EVENT_RECORD_LEN];

    // a non-key record changes nothing
    record(&mut buf, 0, 0, 0);
    assert!(col.ingest(&buf).is_none());

    // a short buffer is skipped
    assert!(col.ingest(&buf[..10]).is_none());

    record(&mut buf, 1, 30, 1);
    assert!(col.ingest(&buf).is_none());

    // the second recorded combination triggers the snapshot copy
    record(&mut buf, 1, 16, 1);
    let snap = col.ingest(&buf).expect("snapshot expected at threshold");
    assert_eq!(
        snap,
        vec![
            (combo(false, false, false, false, 30), 1),
            (combo(false, false, false, false, 16), 1),
        ]
    );

    // the countdown starts over
    record(&mut buf, 1, 30, 2);
    assert!(col.ingest(&buf).is_none());
    record(&mut buf, 1, 30, 2);
    assert!(col.ingest(&buf).is_some());
}
