use plasma::procstat::{field_of, stat_start_time};

#[test]
fn start_time_is_twenty_second_field() {
    let stat = "1234 (my (odd) cmd) S 1 1234 1234 0 -1 4194560 100 0 0 0 1 2 0 0 20 0 1 0 987654 12345 67";
    assert_eq!(stat_start_time(stat), Some(987654));
}

#[test]
fn malformed_stat_has_no_start_time() {
    assert_eq!(stat_start_time(""), None);
    assert_eq!(stat_start_time("1234 cmd S 1 2 3"), None);
    assert_eq!(stat_start_time("1234 (cmd) S 1 2 3"), None);
}

#[test]
fn fields_are_space_separated() {
    assert_eq!(field_of("a bc d", 1), Some("bc".to_string()));
    assert_eq!(field_of("a bc d", 2), Some("d".to_string()));
    assert_eq!(field_of("a bc d", 3), None);
    assert_eq!(field_of(" x", 0), Some("".to_string()));
}
