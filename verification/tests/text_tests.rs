use camera_server::clock::{epoch_millis, millis, date_part, is_active, now_ms, session_name, time_part, Timestamp, ACTIVE_THRESHOLD_MS};
use camera_server::naming::{display_name, sanitize_dir_name};
use camera_server::text::{decimal_string, first_two_words, join, sort_strings, str_less, trim};

fn strings(v: &[&str]) -> Vec<String> {
    v.iter().map(|s| s.to_string()).collect()
}

#[test]
fn decimal_matches_to_string() {
    assert_eq!(decimal_string(0), "0");
    assert_eq!(decimal_string(7), "7");
    assert_eq!(decimal_string(1234567890), "1234567890");
    assert_eq!(decimal_string(u64::MAX), u64::MAX.to_string());
}

#[test]
fn trim_strips_unicode_white_space() {
    assert_eq!(trim("  Porch \t\n"), "Porch");
    assert_eq!(trim("\u{3000}Hof\u{a0}"), "Hof");
    assert_eq!(trim("   "), "");
    assert_eq!(trim(""), "");
    assert_eq!(trim("a b"), "a b");
}

#[test]
fn first_two_words_split_on_white_space() {
    assert_eq!(first_two_words("  /notify_on   cam1  extra"), (Some("/notify_on".to_string()), Some("cam1".to_string())));
    assert_eq!(first_two_words("/help"), (Some("/help".to_string()), None));
    assert_eq!(first_two_words(" \t "), (None, None));
}

#[test]
fn strings_order_by_code_point() {
    assert!(str_less("a", "b"));
    assert!(str_less("a", "ab"));
    assert!(!str_less("ab", "a"));
    assert!(!str_less("a", "a"));
    assert!(str_less("Z", "a"));
    assert!(str_less("z", "\u{e9}"));
}

#[test]
fn sort_strings_matches_std_sort() {
    let input = strings(&["cam2", "Cam1", "cam10", "", "cam2", "\u{e9}t\u{e9}", "a!", "a"]);
    let mut expected = input.clone();
    expected.sort();
    assert_eq!(sort_strings(input), expected);
}

#[test]
fn join_separates_parts() {
    assert_eq!(join(&strings(&["a", "b", "c"]), ","), "a,b,c");
    assert_eq!(join(&strings(&["only"]), "\n"), "only");
    assert_eq!(join(&Vec::new(), ","), "");
}

#[test]
fn sanitize_replaces_unsafe_characters() {
    assert_eq!(sanitize_dir_name("Front Door"), "Front_Door");
    assert_eq!(sanitize_dir_name("garage/left"), "garage_left");
    assert_eq!(sanitize_dir_name("cam-1.v2"), "cam-1.v2");
    assert_eq!(sanitize_dir_name("Caf\u{e9} 2"), "Caf\u{e9}_2");
}

#[test]
fn sanitize_trims_underscores_and_never_empties() {
    assert_eq!(sanitize_dir_name("__a__"), "a");
    assert_eq!(sanitize_dir_name("  x  "), "x");
    assert_eq!(sanitize_dir_name(""), "_");
    assert_eq!(sanitize_dir_name("///"), "_");
    assert_eq!(sanitize_dir_name("___"), "_");
}

#[test]
fn display_name_falls_back_to_id() {
    assert_eq!(display_name(&Some("Porch".to_string()), "esp1"), "Porch");
    assert_eq!(display_name(&None, "esp1"), "esp1");
}

#[test]
fn active_means_recent_frame() {
    assert!(!is_active(0, 5_000));
    assert!(is_active(1_000, 1_000 + ACTIVE_THRESHOLD_MS - 1));
    assert!(!is_active(1_000, 1_000 + ACTIVE_THRESHOLD_MS));
    assert!(is_active(5_000, 1_000));
}

#[test]
fn clock_reads_after_2020() {
    assert!(now_ms() > 1_577_836_800_000);
}

#[test]
fn session_names_use_day_month_year() {
    let t = Timestamp { year: 2024, month: 3, day: 5, hour: 7, minute: 8, second: 9 };
    assert_eq!(date_part(&t), "05-03-2024");
    assert_eq!(time_part(&t), "07-08-09");
    assert_eq!(session_name(&t), "05-03-2024_07-08-09");
}

#[test]
fn large_years_carry_a_sign() {
    let t = Timestamp { year: 12345, month: 12, day: 31, hour: 23, minute: 59, second: 0 };
    assert_eq!(date_part(&t), "31-12-+12345");
    let t = Timestamp { year: 987, month: 1, day: 1, hour: 0, minute: 0, second: 0 };
    assert_eq!(date_part(&t), "01-01-0987");
}

#[test]
fn millis_truncate_and_wrap() {
    assert_eq!(millis(1, 999_999_999), 1_999);
    assert_eq!(millis(1_700_000_000, 123_456_789), 1_700_000_000_123);
    assert_eq!(millis(0, 999_999), 0);
    assert_eq!(millis(u64::MAX, 0), u64::MAX.wrapping_mul(1000));
}

#[test]
fn epoch_readings_in_milliseconds() {
    assert_eq!(epoch_millis(Some((1_700_000_000, 5_999_999))), 1_700_000_000_005);
    assert_eq!(epoch_millis(None), 0);
}

#[test]
fn ascii_names_match_dashboard_links() {
    assert_eq!(sanitize_dir_name("_Back yard #2!_"), "Back_yard__2");
    assert_eq!(sanitize_dir_name("a.b-c_d"), "a.b-c_d");
    assert_eq!(sanitize_dir_name("!!!"), "_");
}
