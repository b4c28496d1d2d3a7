use droidnode::text::{
    chars_of, find_text, has_char, is_white_space, join, lines, parse_number, replace, same, show,
    show_signed, starts_with, trim, word_after_first,
};

fn samples() -> Vec<String> {
    let alphabet = ['a', ' ', '\n', '\r', ':', '\t', 'é', '\u{a0}', '\u{3000}', '+', '0', '7'];
    let mut out = vec![String::new()];
    let mut seed: u64 = 88172645463325252;
    for n in 0..400usize {
        let mut s = String::new();
        for _ in 0..(n % 9) {
            seed ^= seed << 13;
            seed ^= seed >> 7;
            seed ^= seed << 17;
            s.push(alphabet[(seed % alphabet.len() as u64) as usize]);
        }
        out.push(s);
    }
    out
}

#[test]
fn texts_are_trimmed_as_std_does() {
    for s in samples() {
        assert_eq!(trim(&s), s.trim(), "{s:?}");
    }
}

#[test]
fn white_space_is_what_std_says() {
    for n in 0..0x11000u32 {
        if let Some(c) = char::from_u32(n) {
            assert_eq!(is_white_space(c), c.is_whitespace(), "{n:x}");
        }
    }
}

#[test]
fn texts_are_split_into_lines_as_std_does() {
    for s in samples() {
        let expected: Vec<String> = s.lines().map(|l| l.to_string()).collect();
        assert_eq!(lines(&s), expected, "{s:?}");
    }
}

#[test]
fn second_words_are_those_of_std() {
    for s in samples() {
        let expected = s.split_whitespace().nth(1).map(|w| w.to_string());
        assert_eq!(word_after_first(&s), expected, "{s:?}");
    }
}

#[test]
fn characters_are_replaced_as_std_does() {
    for s in samples() {
        assert_eq!(replace(&s, ':', "-"), s.replace(':', "-"));
        assert_eq!(replace(&s, 'a', "_at_"), s.replace('a', "_at_"));
        assert!(!replace(&s, ':', "-").contains(':'));
    }
}

#[test]
fn prefixes_are_those_of_std() {
    for s in samples() {
        for p in ["", "a", " ", "a ", "é"] {
            assert_eq!(starts_with(&s, p), s.starts_with(p));
        }
    }
}

#[test]
fn texts_are_found_in_texts() {
    let cs = chars_of("abcabc");
    assert_eq!(find_text(&cs, &chars_of("bc"), 0), Some(1));
    assert_eq!(find_text(&cs, &chars_of("bc"), 2), Some(4));
    assert_eq!(find_text(&cs, &chars_of("cb"), 0), None);
    assert_eq!(find_text(&cs, &chars_of(""), 6), Some(6));
    assert!(has_char(&cs, 'c', 0, 3));
    assert!(!has_char(&cs, 'c', 0, 2));
}

#[test]
fn strings_are_joined_as_std_does() {
    for n in 0..5usize {
        let parts: Vec<String> = (0..n).map(|i| format!("p{i}")).collect();
        assert_eq!(join(&parts, ", "), parts.join(", "));
    }
}

#[test]
fn texts_are_compared() {
    assert!(same("é1", "é1"));
    assert!(!same("é1", "é2"));
    assert!(!same("a", "ab"));
}

#[test]
fn numbers_are_written_as_std_does() {
    for n in [0u64, 1, 9, 10, 99, 100, 1024, u64::MAX - 1, u64::MAX] {
        assert_eq!(show(n), n.to_string());
    }
    for i in [0i32, 1, -1, 10, -10, i32::MAX, i32::MIN] {
        assert_eq!(show_signed(i), i.to_string());
    }
}

#[test]
fn numbers_are_read_as_std_does() {
    let texts = [
        "", "+", "-", "0", "+0", "007", "65535", "65536", "+65535", "-1", "1 ", " 1", "1a", "++1",
        "18446744073709551615", "18446744073709551616", "99999999999999999999999",
    ];
    for t in texts {
        assert_eq!(parse_number(t, u64::MAX), t.parse::<u64>().ok(), "{t:?}");
        assert_eq!(parse_number(t, 65535), t.parse::<u16>().ok().map(|n| n as u64), "{t:?}");
    }
}

#[test]
fn written_numbers_can_be_read() {
    for n in [0u64, 7, 10, 10250, 65535, u64::MAX] {
        assert_eq!(parse_number(&show(n), u64::MAX), Some(n));
    }
}
