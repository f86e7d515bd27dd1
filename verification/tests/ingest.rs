use chrono::TimeZone;
use log_ingest::entry::render_entry;
use log_ingest::entry::render_entry_now;
use log_ingest::handler::response_for_persist;
use log_ingest::handler::IngestError;
use log_ingest::health;
use log_ingest::timestamp::Timestamp;

fn example_timestamp() -> Timestamp {
    Timestamp::from_parts(2024, 1, 2, 3, 4, 5).expect("valid parts")
}

#[test]
fn renders_example_entry() {
    let ts = example_timestamp();
    let entry = render_entry(&ts, "disk at 91%");
    assert_eq!(entry, "[2024-01-02 03:04:05 UTC] disk at 91%\n");
}

#[test]
fn example_request_succeeds_with_fixed_body() {
    let response = response_for_persist(&Ok(())).expect("persisted entries succeed");
    assert_eq!(response.status, "success");
    assert_eq!(response.message, "Log entry written successfully");
}

#[test]
fn renders_empty_data_as_is() {
    let ts = example_timestamp();
    let entry = render_entry(&ts, "");
    assert_eq!(entry, "[2024-01-02 03:04:05 UTC] \n");
}

#[test]
fn renders_data_with_newline_as_is() {
    let ts = example_timestamp();
    let entry = render_entry(&ts, "a\nb");
    assert_eq!(entry, "[2024-01-02 03:04:05 UTC] a\nb\n");
}

#[test]
fn zero_pads_every_field() {
    let ts = Timestamp::from_parts(999, 9, 9, 0, 0, 0).expect("valid parts");
    let entry = render_entry(&ts, "x");
    assert_eq!(entry, "[0999-09-09 00:00:00 UTC] x\n");
}

#[test]
fn renders_largest_timestamp() {
    let ts = Timestamp::from_parts(9999, 12, 31, 23, 59, 59).expect("valid parts");
    let entry = render_entry(&ts, "x");
    assert_eq!(entry, "[9999-12-31 23:59:59 UTC] x\n");
}

#[test]
fn rejects_parts_out_of_range() {
    assert!(Timestamp::from_parts(10000, 1, 1, 0, 0, 0).is_none());
    assert!(Timestamp::from_parts(-1, 1, 1, 0, 0, 0).is_none());
    assert!(Timestamp::from_parts(2024, 0, 1, 0, 0, 0).is_none());
    assert!(Timestamp::from_parts(2024, 13, 1, 0, 0, 0).is_none());
    assert!(Timestamp::from_parts(2024, 1, 0, 0, 0, 0).is_none());
    assert!(Timestamp::from_parts(2024, 1, 32, 0, 0, 0).is_none());
    assert!(Timestamp::from_parts(2024, 1, 1, 24, 0, 0).is_none());
    assert!(Timestamp::from_parts(2024, 1, 1, 0, 60, 0).is_none());
    assert!(Timestamp::from_parts(2024, 1, 1, 0, 0, 60).is_none());
}

#[test]
fn matches_chrono_rendering() {
    let dt = chrono::Utc.with_ymd_and_hms(2024, 1, 2, 3, 4, 5).unwrap();
    let expected = format!("{}", dt.format("%Y-%m-%d %H:%M:%S UTC"));
    let ts = example_timestamp();
    let entry = render_entry(&ts, "d");
    assert_eq!(entry, format!("[{}] d\n", expected));
}

#[test]
fn health_is_always_ok() {
    assert_eq!(health(), "OK");
}

#[test]
fn persist_failure_maps_to_internal_error() {
    let failed: Result<(), String> = Err("permission denied".to_string());
    let response = response_for_persist(&failed);
    let err = response.err().expect("a failed write fails the request");
    assert!(matches!(err, IngestError::Internal));
    assert_eq!(err.http_status(), 500);
}

#[test]
fn now_is_renderable() {
    let ts = now_renderable();
    let entry = render_entry(&ts, "probe");
    assert_eq!(entry.chars().count(), 27 + "probe".chars().count());
    assert!(entry.starts_with('['));
    assert!(entry.contains(" UTC] probe"));
    assert!(entry.ends_with('\n'));
}

fn now_renderable() -> Timestamp {
    log_ingest::clock::now_timestamp().expect("the clock reads a four-digit year")
}

#[test]
fn entry_from_now_carries_data() {
    let entry = render_entry_now("payload").expect("the clock reads a four-digit year");
    assert!(entry.ends_with(" payload\n"));
    assert_eq!(entry.chars().count(), 27 + "payload".chars().count());
}

#[test]
fn serialized_posts_append_whole_lines_in_order() {
    let ts = example_timestamp();
    let payloads = ["first", "second", "third"];
    let mut log = String::new();
    for p in payloads {
        log.push_str(&render_entry(&ts, p));
    }
    let lines: Vec<&str> = log.split_inclusive('\n').collect();
    assert_eq!(lines.len(), payloads.len());
    for (line, p) in lines.iter().zip(payloads.iter()) {
        assert_eq!(*line, render_entry(&ts, p));
        assert!(line.ends_with('\n'));
        assert!(!line[..line.len() - 1].contains('\n'));
    }
}
