use app_timer::record::{append_payload, append_to, header_fields, RunRecord};
use app_timer::timestamp::Timestamp;

const HEADER: &str = "startTimestamp,endTimestamp,elapsedMinutes,username\n";

fn record(start: i64, end: i64, username: &str) -> RunRecord {
    RunRecord {
        start: Timestamp::new(start, 0, 3600).unwrap(),
        end: Timestamp::new(end, 0, 3600).unwrap(),
        username: username.to_string(),
    }
}

fn text(bytes: Vec<u8>) -> String {
    String::from_utf8(bytes).unwrap()
}

#[test]
fn header_names_the_four_columns() {
    assert_eq!(
        header_fields(),
        vec!["startTimestamp", "endTimestamp", "elapsedMinutes", "username"]
    );
}

#[test]
fn fields_are_start_end_minutes_and_username() {
    let r = record(1709281800, 1709286359, "alice");
    assert_eq!(
        r.fields(),
        vec!["2024-03-01T09:30:00+01:00", "2024-03-01T10:45:59+01:00", "75", "alice"]
    );
}

#[test]
fn fields_of_a_run_that_ends_before_it_starts() {
    let r = record(1709281800, 1709281800 - 125, "bob");
    assert_eq!(r.fields()[2], "-2");
}

#[test]
fn payload_for_a_new_log_is_header_then_row() {
    let r = record(1709281800, 1709281802, "alice");
    let bytes = append_payload(false, &r).unwrap();
    assert_eq!(
        text(bytes),
        format!("{}2024-03-01T09:30:00+01:00,2024-03-01T09:30:02+01:00,0,alice\n", HEADER)
    );
}

#[test]
fn payload_for_an_existing_log_is_the_row_alone() {
    let r = record(1709281800, 1709281802, "alice");
    let bytes = append_payload(true, &r).unwrap();
    assert_eq!(text(bytes), "2024-03-01T09:30:00+01:00,2024-03-01T09:30:02+01:00,0,alice\n");
}

#[test]
fn username_with_a_comma_is_quoted() {
    let r = record(0, 60, "Smith, Al");
    let bytes = append_payload(true, &r).unwrap();
    assert_eq!(
        text(bytes),
        "1970-01-01T01:00:00+01:00,1970-01-01T01:01:00+01:00,1,\"Smith, Al\"\n"
    );
}

#[test]
fn username_with_quotes_has_them_doubled() {
    let r = record(0, 60, "the \"boss\"");
    let bytes = append_payload(true, &r).unwrap();
    assert_eq!(
        text(bytes),
        "1970-01-01T01:00:00+01:00,1970-01-01T01:01:00+01:00,1,\"the \"\"boss\"\"\"\n"
    );
}

#[test]
fn username_with_a_line_break_is_quoted() {
    let r = record(0, 60, "a\nb");
    let bytes = append_payload(true, &r).unwrap();
    assert_eq!(
        text(bytes),
        "1970-01-01T01:00:00+01:00,1970-01-01T01:01:00+01:00,1,\"a\nb\"\n"
    );
}

#[test]
fn username_outside_ascii_is_written_as_utf8() {
    let r = record(0, 0, "Zoë");
    let bytes = append_payload(true, &r).unwrap();
    assert_eq!(text(bytes), "1970-01-01T01:00:00+01:00,1970-01-01T01:00:00+01:00,0,Zoë\n");
}

#[test]
fn payload_is_what_one_writer_gives_for_both_records() {
    let r = record(1709281800, 1709286359, "carol, the \"admin\"");
    let mut writer = csv::Writer::from_writer(Vec::new());
    writer.write_record(&header_fields()).unwrap();
    writer.write_record(&r.fields()).unwrap();
    let expected = writer.into_inner().unwrap();
    assert_eq!(append_payload(false, &r).unwrap(), expected);
}

#[test]
fn first_append_creates_header_and_row_and_second_adds_one_row() {
    let first = record(1709281800, 1709281802, "alice");
    let second = record(1709285400, 1709286000, "bob");
    let once = append_to(None, &first).unwrap();
    assert_eq!(
        text(once.clone()),
        format!("{}2024-03-01T09:30:00+01:00,2024-03-01T09:30:02+01:00,0,alice\n", HEADER)
    );
    let twice = text(append_to(Some(once.clone()), &second).unwrap());
    let lines: Vec<&str> = twice.lines().collect();
    assert_eq!(lines.len(), 3);
    assert_eq!(format!("{}\n", lines[0]), HEADER);
    assert_eq!(lines[1], "2024-03-01T09:30:00+01:00,2024-03-01T09:30:02+01:00,0,alice");
    assert_eq!(lines[2], "2024-03-01T10:30:00+01:00,2024-03-01T10:40:00+01:00,10,bob");
    assert!(twice.starts_with(&text(once)));
}

#[test]
fn appending_to_an_existing_log_never_writes_the_header() {
    let mut log = b"kept as it was\n".to_vec();
    for i in 0..5 {
        log = append_to(Some(log), &record(i * 60, i * 120, "dave")).unwrap();
    }
    let log = text(log);
    assert!(log.starts_with("kept as it was\n"));
    assert_eq!(log.lines().count(), 6);
    assert_eq!(log.matches("startTimestamp").count(), 0);
}

#[test]
fn appending_to_an_existing_empty_log_writes_no_header() {
    let log = append_to(Some(Vec::new()), &record(0, 0, "erin")).unwrap();
    assert_eq!(text(log), "1970-01-01T01:00:00+01:00,1970-01-01T01:00:00+01:00,0,erin\n");
}

#[test]
fn header_is_written_once_over_many_appends() {
    let mut log = append_to(None, &record(0, 0, "frank")).unwrap();
    for i in 1..4 {
        log = append_to(Some(log), &record(0, i * 60, "frank")).unwrap();
    }
    let log = text(log);
    assert!(log.starts_with(HEADER));
    assert_eq!(log.matches("startTimestamp").count(), 1);
    assert_eq!(log.lines().count(), 5);
}

#[test]
fn run_of_two_seconds_by_alice_is_logged_as_zero_minutes() {
    let r = record(1709281800, 1709281802, "alice");
    let fields = r.fields();
    assert_eq!(fields[2], "0");
    assert_eq!(fields[3], "alice");
    let log = text(append_to(Some(HEADER.as_bytes().to_vec()), &r).unwrap());
    assert_eq!(log.lines().count(), 2);
    assert!(log.lines().nth(1).unwrap().ends_with(",0,alice"));
}
