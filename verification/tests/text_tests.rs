use overlay_core::text::find_char_range;
use overlay_core::text::find_prefixed_line;
use overlay_core::text::first_token_from;
use overlay_core::text::parse_u64;
use overlay_core::text::push_decimal;
use overlay_core::text::str_has_prefix;
use overlay_core::text::trim_spaces;

#[test]
fn decimal_rendering_round_trips() {
    for n in [0u64, 7, 10, 99, 100, 4096, u64::MAX] {
        let mut s = String::new();
        push_decimal(&mut s, n);
        assert_eq!(s, n.to_string());
        assert_eq!(parse_u64(&s), Some(n));
    }
}

#[test]
fn parse_refuses_what_is_not_a_numeral() {
    assert_eq!(parse_u64(""), None);
    assert_eq!(parse_u64("12a"), None);
    assert_eq!(parse_u64("-3"), None);
    assert_eq!(parse_u64(" 12"), None);
    // One past the largest 64-bit value.
    assert_eq!(parse_u64("18446744073709551616"), None);
    assert_eq!(parse_u64("18446744073709551615"), Some(u64::MAX));
}

#[test]
fn trimming_strips_surrounding_whitespace_only() {
    assert_eq!(trim_spaces("  \t358400 \r\n"), "358400");
    assert_eq!(trim_spaces("a b"), "a b");
    assert_eq!(trim_spaces("   "), "");
    assert_eq!(trim_spaces(""), "");
}

#[test]
fn prefix_test_matches_whole_prefix() {
    assert!(str_has_prefix("main_monitor_2", "main_monitor_"));
    assert!(!str_has_prefix("main", "main_monitor_"));
    assert!(!str_has_prefix("xmain_monitor_2", "main_monitor_"));
    assert!(str_has_prefix("anything", ""));
}

#[test]
fn prefixed_line_is_found_at_any_line_start() {
    assert_eq!(find_prefixed_line("VmRSS: 12 kB\n", "VmRSS:"), Some(0));
    assert_eq!(find_prefixed_line("Name: x\nVmRSS: 12 kB\n", "VmRSS:"), Some(8));
    // An occurrence in the middle of a line does not count.
    assert_eq!(find_prefixed_line("xVmRSS: 12\n", "VmRSS:"), None);
    assert_eq!(find_prefixed_line("", "VmRSS:"), None);
}

#[test]
fn first_token_skips_leading_whitespace() {
    assert_eq!(first_token_from("VmRSS:\t  358400 kB", 6), "358400");
    assert_eq!(first_token_from("  \t ", 0), "");
    assert_eq!(first_token_from("one two", 3), "two");
}

#[test]
fn characters_are_found_only_inside_the_range() {
    let s = "a,b,c";
    assert_eq!(find_char_range(s, ',', 0, 5), Some(1));
    assert_eq!(find_char_range(s, ',', 2, 5), Some(3));
    assert_eq!(find_char_range(s, ',', 2, 3), None);
    assert_eq!(find_char_range(s, 'z', 0, 5), None);
}
