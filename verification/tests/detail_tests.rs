use seeker::detail::{detail_lines, system_time_to_datetime_string, u64_to_string, FileMeta};

#[test]
fn u64_renders_in_decimal() {
    assert_eq!(u64_to_string(0), "0");
    assert_eq!(u64_to_string(7), "7");
    assert_eq!(u64_to_string(10), "10");
    assert_eq!(u64_to_string(1234567890), "1234567890");
    assert_eq!(u64_to_string(u64::MAX), "18446744073709551615");
}

#[test]
fn timestamps_render_as_utc_datetime() {
    assert_eq!(system_time_to_datetime_string(0), "1970-01-01 00:00:00");
    assert_eq!(system_time_to_datetime_string(1000000000), "2001-09-09 01:46:40");
    assert_eq!(system_time_to_datetime_string(86399), "1970-01-01 23:59:59");
}

#[test]
fn detail_lines_show_labelled_fields() {
    let meta = FileMeta { size: 1234, created_secs: 0, modified_secs: 1000000000 };
    let lines = detail_lines("a.txt", Some(&meta));
    assert_eq!(lines.len(), 4);
    assert_eq!(lines[0], "filename: a.txt");
    assert_eq!(lines[1], "size: 1234");
    assert_eq!(lines[2], "created_time: 1970-01-01 00:00:00");
    assert_eq!(lines[3], "modified_time: 2001-09-09 01:46:40");
}

#[test]
fn detail_lines_absent_without_metadata() {
    let lines = detail_lines("a.txt", None);
    assert_eq!(lines.len(), 0);
}
