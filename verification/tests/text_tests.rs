use hexim::text::{chars_of, hex_value_of, is_space_char, is_yes, parse_hex_byte, push_dec, push_hex, trim_bounds};

fn hex(n: usize, width: usize) -> String {
    let mut out = String::new();
    push_hex(&mut out, n, width);
    out
}

fn dec(n: usize) -> String {
    let mut out = String::new();
    push_dec(&mut out, n);
    out
}

#[test]
fn hex_text_pads_to_width() {
    assert_eq!(hex(0, 2), "00");
    assert_eq!(hex(0x0A, 2), "0A");
    assert_eq!(hex(0xFF, 2), "FF");
    assert_eq!(hex(0, 8), "00000000");
    assert_eq!(hex(0x1234, 8), "00001234");
    assert_eq!(hex(0xDEADBEEF, 8), "DEADBEEF");
}

#[test]
fn hex_text_grows_past_width() {
    assert_eq!(hex(0x1_2345_6789, 8), "123456789");
    assert_eq!(hex(0x100, 2), "100");
    assert_eq!(hex(0, 0), "0");
    assert_eq!(hex(0x1F, 0), "1F");
}

#[test]
fn hex_text_agrees_with_std_formatting() {
    let samples: [usize; 8] = [0, 1, 9, 10, 15, 16, 255, 4096];
    for n in samples {
        assert_eq!(hex(n, 8), format!("{:08X}", n));
        assert_eq!(hex(n, 2), format!("{:02X}", n));
    }
    assert_eq!(hex(usize::MAX, 8), format!("{:08X}", usize::MAX));
}

#[test]
fn push_hex_appends() {
    let mut out = String::from("0x");
    push_hex(&mut out, 0xAB, 2);
    assert_eq!(out, "0xAB");
}

#[test]
fn dec_text_has_no_leading_zeros() {
    assert_eq!(dec(0), "0");
    assert_eq!(dec(7), "7");
    assert_eq!(dec(10), "10");
    assert_eq!(dec(12345), "12345");
    assert_eq!(dec(usize::MAX), format!("{}", usize::MAX));
}

#[test]
fn hex_value_of_digits_in_both_cases() {
    assert_eq!(hex_value_of('0'), Some(0));
    assert_eq!(hex_value_of('9'), Some(9));
    assert_eq!(hex_value_of('a'), Some(10));
    assert_eq!(hex_value_of('f'), Some(15));
    assert_eq!(hex_value_of('A'), Some(10));
    assert_eq!(hex_value_of('F'), Some(15));
    assert_eq!(hex_value_of('g'), None);
    assert_eq!(hex_value_of('G'), None);
    assert_eq!(hex_value_of('/'), None);
    assert_eq!(hex_value_of(':'), None);
    assert_eq!(hex_value_of('@'), None);
    assert_eq!(hex_value_of('`'), None);
    assert_eq!(hex_value_of(' '), None);
}

#[test]
fn white_space_is_what_std_calls_white_space() {
    let mut code: u32 = 0;
    while code < 0x3100 {
        if let Some(c) = char::from_u32(code) {
            assert_eq!(is_space_char(c), c.is_whitespace(), "code {:X}", code);
        }
        code += 1;
    }
}

#[test]
fn trim_bounds_match_std_trim() {
    for text in ["", " ", "  ", "a", " a", "a ", "  ab  ", "\t\nAB\r\n", " a b ", "\u{3000}x\u{a0}"] {
        let chars = chars_of(text);
        let (start, end) = trim_bounds(&chars);
        let trimmed: String = chars[start..end].iter().collect();
        assert_eq!(trimmed, text.trim(), "text {:?}", text);
    }
}

#[test]
fn chars_of_keeps_every_character() {
    assert_eq!(chars_of(""), Vec::<char>::new());
    assert_eq!(chars_of("aé\u{1F600}z"), vec!['a', 'é', '\u{1F600}', 'z']);
}

#[test]
fn parse_hex_byte_reads_two_digits() {
    assert_eq!(parse_hex_byte("AB"), Some(0xAB));
    assert_eq!(parse_hex_byte("ab"), Some(0xAB));
    assert_eq!(parse_hex_byte("00"), Some(0x00));
    assert_eq!(parse_hex_byte("fF"), Some(0xFF));
    assert_eq!(parse_hex_byte("7e"), Some(0x7E));
    assert_eq!(parse_hex_byte("10"), Some(16));
}

#[test]
fn parse_hex_byte_trims_white_space() {
    assert_eq!(parse_hex_byte(" 0f "), Some(0x0F));
    assert_eq!(parse_hex_byte("\tC3\n"), Some(0xC3));
}

#[test]
fn parse_hex_byte_refuses_everything_else() {
    for text in ["", " ", "zz", "A", "ABC", "0x", "+A", "-1", "A B", "1 ", "G0", "0G", "é0", "١٢"] {
        assert_eq!(parse_hex_byte(text), None, "text {:?}", text);
    }
}

#[test]
fn is_yes_accepts_y_and_yes_in_any_case() {
    for text in ["y", "Y", "yes", "YES", "Yes", "yEs", " y ", "\tyes\n"] {
        assert!(is_yes(text), "text {:?}", text);
    }
}

#[test]
fn is_yes_refuses_everything_else() {
    for text in ["", " ", "n", "no", "ye", "yess", "y e s", "yes!", "yy", "oui", "ÿ"] {
        assert!(!is_yes(text), "text {:?}", text);
    }
}

#[test]
fn is_yes_agrees_with_lower_casing() {
    for text in ["y", "Y", "yes", "YeS", "n", "", "yES ", "ja", "K"] {
        let lower = text.trim().to_lowercase();
        assert_eq!(is_yes(text), lower == "y" || lower == "yes", "text {:?}", text);
    }
}
