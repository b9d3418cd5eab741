use keystats::aggregate::Aggregator;
use keystats::keycodes::code_to_keyname;
use keystats::numeral::u64_to_dec;
use keystats::snapshot::render_line;
use keystats::snapshot::render_lines;
use keystats::snapshot::sort_entries_desc;
use keystats::store::DiskModel;
use keystats::store::SnapshotError;
use keystats::store::publish_snapshot;
use keystats::store::rotate_previous;
use keystats::tracker::ModifierTracker;
use keystats::tracker::PressedCombination;

fn combo(ctrl: bool, shift: bool, alt: bool, meta: bool, code: u16) -> PressedCombination {
    PressedCombination { shift, alt, meta, ctrl, code }
}

#[test]
fn decimal_rendering_exact() {
    assert_eq!(u64_to_dec(0), "0");
    assert_eq!(u64_to_dec(7), "7");
    assert_eq!(u64_to_dec(10), "10");
    assert_eq!(u64_to_dec(100), "100");
    assert_eq!(u64_to_dec(12345), "12345");
    assert_eq!(u64_to_dec(u64::MAX), "18446744073709551615");
}

#[test]
fn key_labels_exact() {
    assert_eq!(code_to_keyname(1), "Esc");
    assert_eq!(code_to_keyname(16), "q");
    assert_eq!(code_to_keyname(30), "a");
    assert_eq!(code_to_keyname(29), "Ctrl");
    assert_eq!(code_to_keyname(42), "Shift");
    assert_eq!(code_to_keyname(54), "Shift");
    assert_eq!(code_to_keyname(56), "Alt");
    assert_eq!(code_to_keyname(125), "Meta");
    assert_eq!(code_to_keyname(84), "");
    assert_eq!(code_to_keyname(0), "ERROR_KEY");
    assert_eq!(code_to_keyname(200), "ERROR_KEY");
    assert_eq!(code_to_keyname(u16::MAX), "ERROR_KEY");
}

#[test]
fn line_format_exact() {
    assert_eq!(
        render_line(3, combo(true, false, false, false, 30)),
        "3 a true false false, false\n"
    );
    assert_eq!(
        render_line(12, combo(false, true, true, true, 999)),
        "12 ERROR_KEY false true true, true\n"
    );
}

#[test]
fn sort_is_descending_and_keeps_entries() {
    let entries = vec![
        (combo(false, false, false, false, 16), 2u64),
        (combo(false, false, false, false, 30), 7),
        (combo(true, false, false, false, 30), 2),
        (combo(false, false, false, false, 17), 5),
    ];
    let sorted = sort_entries_desc(entries.clone());
    assert_eq!(sorted.len(), entries.len());
    for w in sorted.windows(2) {
        assert!(w[0].1 >= w[1].1);
    }
    for e in &entries {
        assert!(sorted.contains(e));
    }
    assert_eq!(sorted[0], (combo(false, false, false, false, 30), 7));
    assert_eq!(sorted[1], (combo(false, false, false, false, 17), 5));
}

#[test]
fn snapshot_round_trip_counts_non_increasing() {
    // run a burst of events, snapshot, write lines, read them back:
    // the leading numbers must never increase
    let mut t = ModifierTracker::new();
    let mut agg = Aggregator::new();
    let events = [
        (16u16, 1i32),
        (16, 2),
        (16, 2),
        (29, 1),
        (30, 1),
        (30, 2),
        (29, 0),
        (42, 1),
        (16, 1),
    ];
    for (code, value) in events {
        if let Some(c) = t.handle_key(code, value) {
            agg.record(c);
        }
    }
    let sorted = sort_entries_desc(agg.snapshot());
    let lines = render_lines(&sorted);
    assert_eq!(lines.len(), sorted.len());
    let mut read_back: Vec<u64> = Vec::new();
    for line in &lines {
        let head = line.split(' ').next().unwrap();
        read_back.push(head.parse().unwrap());
    }
    for w in read_back.windows(2) {
        assert!(w[0] >= w[1]);
    }
    // every event but the single release qualifies
    assert_eq!(read_back.iter().sum::<u64>(), events.len() as u64 - 1);
}

#[test]
fn publish_success_replaces_canonical() {
    let mut disk = DiskModel::new();
    let lines = vec!["2 a true false false, false\n".to_string()];
    assert_eq!(publish_snapshot(&mut disk, lines.clone(), true, true, true), Ok(()));
    assert_eq!(disk.canonical, Some(lines));
    assert_eq!(disk.temp, None);
    assert!(disk.archive.is_empty());
}

#[test]
fn failed_rename_leaves_canonical_identical() {
    let mut disk = DiskModel::new();
    let first = vec!["5 q false false false, false\n".to_string()];
    publish_snapshot(&mut disk, first.clone(), true, true, true).unwrap();

    let second = vec!["9 w false false false, false\n".to_string()];
    let r = publish_snapshot(&mut disk, second.clone(), true, true, false);
    assert_eq!(r, Err(SnapshotError::PublishFailed));
    // the canonical content is byte-identical to what it was before
    assert_eq!(disk.canonical, Some(first));
    assert_eq!(disk.temp, Some(second));
}

#[test]
fn failed_create_and_write_report_their_stage() {
    let mut disk = DiskModel::new();
    let old = vec!["1 a true false false, false\n".to_string()];
    publish_snapshot(&mut disk, old.clone(), true, true, true).unwrap();

    let lines = vec!["2 s false false false, false\n".to_string()];
    assert_eq!(
        publish_snapshot(&mut disk, lines.clone(), false, true, true),
        Err(SnapshotError::CreateFailed)
    );
    assert_eq!(disk.canonical, Some(old.clone()));

    assert_eq!(
        publish_snapshot(&mut disk, lines, true, false, true),
        Err(SnapshotError::WriteFailed)
    );
    assert_eq!(disk.canonical, Some(old));
}

#[test]
fn startup_rotation_archives_exactly_one_file() {
    let mut disk = DiskModel::new();
    let old = vec!["4 Esc false false false, false\n".to_string()];
    publish_snapshot(&mut disk, old.clone(), true, true, true).unwrap();

    assert!(rotate_previous(&mut disk, 1234, true, true));
    // the canonical path no longer exists ...
    assert_eq!(disk.canonical, None);
    // ... and exactly one new file exists in the archive directory,
    // named by the decimal timestamp
    assert_eq!(disk.archive.len(), 1);
    assert_eq!(disk.archive[0].0, "1234");
    assert_eq!(disk.archive[0].1, old);
}

#[test]
fn rotation_without_canonical_or_on_failure_changes_nothing() {
    let mut disk = DiskModel::new();
    assert!(!rotate_previous(&mut disk, 77, true, true));
    assert_eq!(disk.canonical, None);
    assert!(disk.archive.is_empty());

    let old = vec!["1 a true false false, false\n".to_string()];
    publish_snapshot(&mut disk, old.clone(), true, true, true).unwrap();
    assert!(!rotate_previous(&mut disk, 77, false, true));
    assert!(!rotate_previous(&mut disk, 77, true, false));
    assert_eq!(disk.canonical, Some(old));
    assert!(disk.archive.is_empty());
}
