use unni::clock::age_in_days_and_hours;
use unni::text::{decimal_string, is_white_space_char, replace, right_align, trim};

#[test]
fn decimal_string_writes_digits() {
    assert_eq!(decimal_string(0), "0");
    assert_eq!(decimal_string(7), "7");
    assert_eq!(decimal_string(10), "10");
    assert_eq!(decimal_string(100), "100");
    assert_eq!(decimal_string(u32::MAX), "4294967295");
}

#[test]
fn right_align_pads_to_width() {
    assert_eq!(right_align("5".to_string(), 3), "  5");
    assert_eq!(right_align("70".to_string(), 3), " 70");
    assert_eq!(right_align("100".to_string(), 3), "100");
    assert_eq!(right_align("1000".to_string(), 3), "1000");
    assert_eq!(right_align(String::new(), 2), "  ");
}

#[test]
fn replace_matches_std_replace() {
    let cases = [
        ("{name} munches happily!", "{name}", "Unni"),
        ("{name} and {name}", "{name}", "Mochi"),
        ("no placeholder", "{name}", "Unni"),
        ("{name", "{name}", "x"),
        ("aaa", "aa", "b"),
        ("{name}", "{name}", "{name}"),
        ("ünï {name} ö", "{name}", "Ünnï"),
        ("", "{name}", "x"),
    ];
    for (s, pat, rep) in cases {
        assert_eq!(replace(s, pat, rep), s.replace(pat, rep));
    }
    assert_eq!(replace("aaa", "aa", "b"), "ba");
}

#[test]
fn trim_matches_std_trim() {
    let cases = [
        "  yes \n",
        "\t\r\n",
        "",
        "no",
        "\u{3000}ja\u{a0}",
        "\u{85}x\u{2028}\u{2029}\u{202f}\u{205f}\u{1680}",
        " a b ",
        "\u{200b}zero width\u{200b}",
    ];
    for s in cases {
        assert_eq!(trim(s), s.trim());
    }
    for c in ['\u{9}', '\u{d}', ' ', '\u{2000}', '\u{200a}', '\u{3000}', 'a', '\u{200b}', '\u{180e}'] {
        assert_eq!(is_white_space_char(c), c.is_whitespace());
    }
}

#[test]
fn age_is_days_and_hours() {
    assert_eq!(age_in_days_and_hours(0), (0, 0));
    assert_eq!(age_in_days_and_hours(3599), (0, 0));
    assert_eq!(age_in_days_and_hours(3600), (0, 1));
    assert_eq!(age_in_days_and_hours(86400 + 5 * 3600 + 59), (1, 5));
    assert_eq!(age_in_days_and_hours(3 * 86400 + 23 * 3600), (3, 23));
    assert_eq!(age_in_days_and_hours(-90000), (-1, -1));
}
