use beeminder::datapoint::{datapoints_from_text, parse_line, Datapoint, DatapointError};
use beeminder::datetime::timestamp_seconds;
use beeminder::text::lines;

fn expect_line_error(r: Result<Vec<Datapoint>, DatapointError>) -> String {
    match r {
        Err(DatapointError::InvalidLine(l)) => l,
        Err(DatapointError::InvalidTimestamp(l)) => panic!("unexpected timestamp error on {}", l),
        Ok(v) => panic!("expected an error, got {} records", v.len()),
    }
}

#[test]
fn parses_line_with_comment() {
    let v = datapoints_from_text("running", "2023-01-05 10:30:00 12.5 'ran 5k'", 1700000000).ok().unwrap();
    assert_eq!(v.len(), 1);
    let d = &v[0];
    assert_eq!(d.value, "12.5");
    assert_eq!(d.daystamp, "20230105");
    assert_eq!(d.comment, Some("ran 5k".to_string()));
    assert_eq!(d.id, "beeminder running 2023-01-05 10:30:00");
    assert!(d.id.contains("running"));
    assert!(d.id.contains("2023-01-05 10:30:00"));
    assert_eq!(d.timestamp, 1672914600);
    assert_eq!(d.updated_at, 1700000000);
    assert_eq!(d.requestid, None);
}

#[test]
fn rejects_line_without_record() {
    let r = datapoints_from_text("running", "hello world", 0);
    assert_eq!(expect_line_error(r), "hello world");
}

#[test]
fn all_or_nothing_on_third_line() {
    let input = "2023-01-05 10:30:00 1\n2023-01-06 10:30:00 2 'two'\nnot a record\n";
    let r = datapoints_from_text("g", input, 0);
    assert_eq!(expect_line_error(r), "not a record");
}

#[test]
fn first_bad_line_is_reported() {
    let input = "bad one\n2023-01-05 10:30:00 1\nbad two";
    let r = datapoints_from_text("g", input, 0);
    assert_eq!(expect_line_error(r), "bad one");
}

#[test]
fn keeps_line_order() {
    let input = "2023-01-06 00:00:00 2\r\n2023-01-05 00:00:00 1\n";
    let v = datapoints_from_text("g", input, 5).ok().unwrap();
    assert_eq!(v.len(), 2);
    assert_eq!(v[0].value, "2");
    assert_eq!(v[0].daystamp, "20230106");
    assert_eq!(v[1].value, "1");
    assert_eq!(v[1].daystamp, "20230105");
}

#[test]
fn empty_input_gives_no_records() {
    let v = datapoints_from_text("g", "", 0).ok().unwrap();
    assert_eq!(v.len(), 0);
}

#[test]
fn value_without_comment() {
    let d = parse_line("g", "2023-01-05 10:30:00 7", 0).ok().unwrap();
    assert_eq!(d.value, "7");
    assert_eq!(d.comment, None);
}

#[test]
fn record_may_stand_inside_line() {
    let d = parse_line("g", "note: 2023-01-05 10:30:00 3.25 'x' trailing", 0).ok().unwrap();
    assert_eq!(d.value, "3.25");
    assert_eq!(d.comment, Some("x".to_string()));
    assert_eq!(d.id, "beeminder g 2023-01-05 10:30:00");
}

#[test]
fn point_without_fraction_digits_ends_value() {
    let d = parse_line("g", "2023-01-05 10:30:00 3. 'x'", 0).ok().unwrap();
    assert_eq!(d.value, "3");
    assert_eq!(d.comment, None);
}

#[test]
fn unterminated_comment_is_dropped() {
    let d = parse_line("g", "2023-01-05 10:30:00 4 'open", 0).ok().unwrap();
    assert_eq!(d.value, "4");
    assert_eq!(d.comment, None);
}

#[test]
fn empty_comment_is_dropped() {
    let d = parse_line("g", "2023-01-05 10:30:00 4 ''", 0).ok().unwrap();
    assert_eq!(d.comment, None);
}

#[test]
fn negative_value_is_refused() {
    match parse_line("g", "2023-01-05 10:30:00 -4", 0) {
        Err(DatapointError::InvalidLine(l)) => assert_eq!(l, "2023-01-05 10:30:00 -4"),
        _ => panic!("expected an invalid line"),
    }
}

#[test]
fn impossible_date_is_refused() {
    match parse_line("g", "2023-02-30 10:30:00 1", 0) {
        Err(e) => {
            assert!(matches!(e, DatapointError::InvalidTimestamp(_)));
            assert_eq!(e.line(), "2023-02-30 10:30:00 1");
        }
        Ok(_) => panic!("expected an invalid timestamp"),
    }
}

#[test]
fn impossible_hour_is_refused() {
    assert!(matches!(
        parse_line("g", "2023-01-05 24:00:00 1", 0),
        Err(DatapointError::InvalidTimestamp(_))
    ));
}

#[test]
fn timestamp_seconds_values() {
    assert_eq!(timestamp_seconds("2023-01-05 10:30:00"), Some(1672914600));
    assert_eq!(timestamp_seconds("2024-02-29 23:59:59"), Some(1709251199));
    assert_eq!(timestamp_seconds("2000-03-01 00:00:00"), Some(951868800));
    assert_eq!(timestamp_seconds("1969-12-31 23:59:59"), Some(-1));
    assert_eq!(timestamp_seconds("0000-01-01 00:00:00"), Some(-62167219200));
    assert_eq!(timestamp_seconds("2023-01-05 23:59:60"), Some(1672963199));
    assert_eq!(timestamp_seconds("2023-02-29 00:00:00"), None);
    assert_eq!(timestamp_seconds("2023-13-01 00:00:00"), None);
    assert_eq!(timestamp_seconds("2023-01-05 10:60:00"), None);
}

#[test]
fn lines_like_std() {
    for s in ["", "a", "a\n", "a\r\nb", "\n\nx\r", "a\n\n", "\r\n"] {
        let expected: Vec<String> = s.lines().map(|l| l.to_string()).collect();
        assert_eq!(lines(s), expected);
    }
}
