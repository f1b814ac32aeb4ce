use kinestra::text::{
    ends_with_newline, first_line, fmt_i64, fmt_u128, parse_u32, trim_str, work_dir_bytes,
};

#[test]
fn decimal_formatting_matches_to_string() {
    for n in [0u128, 7, 10, 99, 100, 4294967295, u128::MAX] {
        assert_eq!(fmt_u128(n), n.to_string());
    }
    for i in [0i64, -1, 15, -128, i64::MIN, i64::MAX] {
        assert_eq!(fmt_i64(i), i.to_string());
    }
}

#[test]
fn parse_matches_str_parse() {
    for s in [
        "0", "42", "+42", "007", "4294967295", "4294967296", "", "+", "-1", "++1", " 1", "1 ",
        "12a", "99999999999999999999", "+0", "٣",
    ] {
        assert_eq!(parse_u32(s), s.parse::<u32>().ok(), "input {:?}", s);
    }
}

#[test]
fn parse_reads_back_what_formatting_wrote() {
    for n in [0u32, 1, 9, 10, 65535, 4294967295] {
        assert_eq!(parse_u32(&fmt_u128(n as u128)), Some(n));
    }
}

#[test]
fn trim_matches_str_trim() {
    for s in ["", "  ", " 99\n", "\t:1 \r\n", "\u{3000}x\u{a0}", "a b", "\u{85}7\u{2028}"] {
        assert_eq!(trim_str(s), s.trim(), "input {:?}", s);
    }
}

#[test]
fn first_line_matches_lines() {
    for s in ["", "\n", "123\n456\n", "123", "12\r\n34", "12\r", "\r\n", "a\rb\nc"] {
        assert_eq!(first_line(s).as_deref(), s.lines().next(), "input {:?}", s);
    }
}

#[test]
fn newline_ending() {
    assert!(ends_with_newline("5\n"));
    assert!(!ends_with_newline("5"));
    assert!(!ends_with_newline(""));
}

#[test]
fn work_dir_drops_one_line_feed() {
    assert_eq!(work_dir_bytes(&b"/tmp/kinestra.ab12\n".to_vec()), b"/tmp/kinestra.ab12".to_vec());
    assert_eq!(work_dir_bytes(&b"/tmp/x\n\n".to_vec()), b"/tmp/x\n".to_vec());
    assert_eq!(work_dir_bytes(&b"/tmp/y".to_vec()), b"/tmp/y".to_vec());
    assert_eq!(work_dir_bytes(&Vec::new()), Vec::<u8>::new());
}
