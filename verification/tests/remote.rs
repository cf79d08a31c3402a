use om_snapper::remote::{describe, Description, SnapshotRecord, GIB};

fn record(id: &str, volume_size: Option<i32>) -> SnapshotRecord {
    SnapshotRecord { snapshot_id: Some(id.to_string()), volume_size }
}

#[test]
fn a_gib_is_two_to_the_thirty() {
    assert_eq!(GIB, 1 << 30);
}

#[test]
fn the_size_is_reported_in_bytes() {
    let records = Some(vec![record("snap-1", Some(8))]);
    assert_eq!(
        describe(&records, "snap-1"),
        Description { found: true, size_bytes: Some(8_589_934_592) }
    );
}

#[test]
fn an_answer_without_records_finds_nothing() {
    assert_eq!(describe(&None, "snap-1"), Description { found: false, size_bytes: None });
    assert_eq!(
        describe(&Some(Vec::new()), "snap-1"),
        Description { found: false, size_bytes: None }
    );
}

#[test]
fn records_of_other_snapshots_are_passed_over() {
    let records = Some(vec![
        record("snap-0", Some(1)),
        SnapshotRecord { snapshot_id: None, volume_size: Some(2) },
        record("snap-1", Some(3)),
        record("snap-2", Some(4)),
    ]);
    assert_eq!(
        describe(&records, "snap-1"),
        Description { found: true, size_bytes: Some(3 * GIB) }
    );
    assert_eq!(describe(&records, "snap-3"), Description { found: false, size_bytes: None });
    assert_eq!(describe(&records, "snap"), Description { found: false, size_bytes: None });
    assert_eq!(describe(&records, ""), Description { found: false, size_bytes: None });
}

#[test]
fn the_first_record_of_the_snapshot_counts() {
    let records = Some(vec![record("snap-1", Some(5)), record("snap-1", Some(9))]);
    assert_eq!(
        describe(&records, "snap-1"),
        Description { found: true, size_bytes: Some(5 * GIB) }
    );
    let records = Some(vec![record("snap-1", None), record("snap-1", Some(9))]);
    assert_eq!(describe(&records, "snap-1"), Description { found: true, size_bytes: None });
}

#[test]
fn a_record_without_a_size_is_found_without_one() {
    let records = Some(vec![record("snap-1", None)]);
    assert_eq!(describe(&records, "snap-1"), Description { found: true, size_bytes: None });
}

#[test]
fn a_negative_size_is_no_size() {
    let records = Some(vec![record("snap-1", Some(-1))]);
    assert_eq!(describe(&records, "snap-1"), Description { found: true, size_bytes: None });
    let records = Some(vec![record("snap-1", Some(i32::MIN))]);
    assert_eq!(describe(&records, "snap-1"), Description { found: true, size_bytes: None });
}

#[test]
fn the_smallest_and_the_largest_size() {
    let records = Some(vec![record("a", Some(0)), record("b", Some(i32::MAX))]);
    assert_eq!(describe(&records, "a"), Description { found: true, size_bytes: Some(0) });
    assert_eq!(
        describe(&records, "b"),
        Description { found: true, size_bytes: Some(2_305_843_008_139_952_128) }
    );
}
