use kv_torture::stats::{
    format_batch_report, format_commit_line, format_inserted_line, u64_to_dec, BatchResult,
};

#[test]
fn decimal_rendering_is_exact() {
    assert_eq!(u64_to_dec(0), "0");
    assert_eq!(u64_to_dec(7), "7");
    assert_eq!(u64_to_dec(10), "10");
    assert_eq!(u64_to_dec(1234567890), "1234567890");
    assert_eq!(u64_to_dec(u64::MAX), "18446744073709551615");
}

#[test]
fn commit_line_matches_report_format() {
    assert_eq!(format_commit_line(1000, 42), "Commit 1000 items in 42 ms");
}

#[test]
fn inserted_line_matches_report_format() {
    assert_eq!(
        format_inserted_line(5000, 137),
        "Inserted 5000 items in 137 ms"
    );
}

#[test]
fn batch_report_without_snapshot_has_two_lines() {
    let r = BatchResult {
        items_written: 1000,
        batch_millis: 9,
        commit_millis: 42,
        occupancy: None,
    };
    let lines = format_batch_report(&r, 5000, 137);
    assert_eq!(
        lines,
        vec![
            String::from("Commit 1000 items in 42 ms"),
            String::from("Inserted 5000 items in 137 ms"),
        ]
    );
}

#[test]
fn batch_report_appends_the_snapshot_when_present() {
    let r = BatchResult {
        items_written: 2,
        batch_millis: 1,
        commit_millis: 3,
        occupancy: Some(String::from("entries: 12")),
    };
    let lines = format_batch_report(&r, 4, 8);
    assert_eq!(lines.len(), 3);
    assert_eq!(lines[2], "entries: 12");
}

#[test]
fn batch_result_carries_the_snapshot() {
    let r = BatchResult {
        items_written: 10,
        batch_millis: 3,
        commit_millis: 5,
        occupancy: Some(String::from("entries: 10")),
    };
    assert_eq!(r.items_written, 10);
    assert_eq!(r.occupancy.as_deref(), Some("entries: 10"));
}
