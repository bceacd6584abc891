//! Texts, times and addresses.

use aurisd::address::Address;
use aurisd::clock::{is_within, since, MILLISECOND, SECOND};
use aurisd::text::{
    ascii_lowercase, ascii_upper, chars_of, comes_before, contains_text, insert_line,
    is_control_char, is_white_space, join, push_decimal, push_hex_digit, same_optional, same_text,
    starts_with, string_of, trim,
};

#[test]
fn white_space_and_control_characters_are_those_of_std() {
    for c in '\0'..=char::MAX {
        assert_eq!(is_white_space(c), c.is_whitespace(), "{c:?}");
        assert_eq!(is_control_char(c), c.is_control(), "{c:?}");
    }
}

#[test]
fn trimming_keeps_the_middle() {
    for text in ["", " ", "a", "  a b\t", "\u{2003}é é\u{a0}", "\n\n", "x\r\n"] {
        assert_eq!(string_of(&trim(&chars_of(text))), text.trim(), "{text:?}");
    }
}

#[test]
fn ascii_case_leaves_other_letters_alone() {
    assert_eq!(ascii_lowercase("AirPods ÄÖ 4"), "airpods ÄÖ 4");
    assert_eq!(ascii_upper('f'), 'F');
    assert_eq!(ascii_upper('é'), 'é');
    assert_eq!(ascii_upper('{'), '{');
}

#[test]
fn digits_are_written_in_either_base() {
    let mut out = String::new();
    push_hex_digit(&mut out, 0, true);
    push_hex_digit(&mut out, 10, true);
    push_hex_digit(&mut out, 15, false);
    assert_eq!(out, "0Af");
    let mut out = String::from("n=");
    push_decimal(&mut out, 0);
    out.push(' ');
    push_decimal(&mut out, u64::MAX);
    assert_eq!(out, "n=0 18446744073709551615");
}

#[test]
fn texts_compare_by_their_characters() {
    assert!(same_text("é", "é"));
    assert!(!same_text("é", "e"));
    assert!(!same_text("ab", "a"));
    assert!(same_optional(&None, &None));
    assert!(!same_optional(&Some("a".into()), &None));
    assert!(same_optional(&Some("a".into()), &Some("a".into())));
    assert!(starts_with(&chars_of("/org/bluez"), "/org"));
    assert!(!starts_with(&chars_of("/or"), "/org"));
    assert!(contains_text("page-timeout at last", "timeout"));
    assert!(contains_text("anything", ""));
    assert!(!contains_text("time out", "timeout"));
    assert!(comes_before("a", "ab"));
    assert!(comes_before("B", "a"));
    assert!(!comes_before("a", "a"));
}

#[test]
fn lines_are_kept_sorted_and_every_one_is_kept() {
    let mut lines: Vec<String> = Vec::new();
    for line in ["b", "a", "c", "b", ""] {
        insert_line(&mut lines, line.to_owned());
    }
    assert_eq!(lines, ["", "a", "b", "b", "c"]);
    assert_eq!(join(&lines), ", a, b, b, c");
    assert_eq!(join(&Vec::new()), "");
}

#[test]
fn time_never_runs_backwards() {
    assert_eq!(since(5 * SECOND, 2 * SECOND), 3 * SECOND);
    assert_eq!(since(2 * SECOND, 5 * SECOND), 0);
    assert!(is_within(Some(SECOND), 2 * SECOND - 1, SECOND));
    assert!(!is_within(Some(SECOND), 2 * SECOND, SECOND));
    assert!(!is_within(None, 0, SECOND));
    assert_eq!(SECOND, 1000 * MILLISECOND);
}

#[test]
fn an_address_is_written_in_upper_case_and_reads_back() {
    let address = Address([0x00, 0x1f, 0xAB, 0xc0, 0x0D, 0xff]);
    assert_eq!(address.to_string(), "00:1F:AB:C0:0D:FF");
    assert_eq!(Address::parse("00:1F:AB:C0:0D:FF"), Some(address));
    assert_eq!(Address::parse("00:1f:ab:c0:0d:ff"), Some(address));
    for bad in ["", "00:1F:AB:C0:0D", "00:1F:AB:C0:0D:FF:00", "00-1F-AB-C0-0D-FF", "zz:1F:AB:C0:0D:FF"] {
        assert_eq!(Address::parse(bad), None, "{bad:?}");
    }
}

#[test]
fn an_address_text_is_six_numbers_below_256() {
    assert_eq!(Address::parse("0:1:2:3:4:5"), Some(Address([0, 1, 2, 3, 4, 5])));
    assert_eq!(Address::parse("+0:001:2:3:4:ff"), Some(Address([0, 1, 2, 3, 4, 255])));
    for bad in [
        "100:1:2:3:4:5",
        "0:1:2:3:4:",
        ":0:1:2:3:4",
        "0:1:2::4:5",
        "+:1:2:3:4:5",
        "-0:1:2:3:4:5",
        " 0:1:2:3:4:5",
    ] {
        assert_eq!(Address::parse(bad), None, "{bad:?}");
    }
}
