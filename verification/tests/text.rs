use cosmic_share_browser::text::{
    chars_of, decimal_string, find_chars, join_strings, parse_u16_chars, split_chars,
    split_lines, split_words, trim_str,
};

fn strs(v: &[Vec<char>]) -> Vec<String> {
    v.iter().map(|c| c.iter().collect()).collect()
}

#[test]
fn decimal_rendering() {
    assert_eq!(decimal_string(0), "0");
    assert_eq!(decimal_string(7), "7");
    assert_eq!(decimal_string(10), "10");
    assert_eq!(decimal_string(65535), "65535");
    assert_eq!(decimal_string(u64::MAX), "18446744073709551615");
}

#[test]
fn u16_parsing_follows_from_str() {
    for s in ["0", "8080", "+42", "65535", "00012", "", "+", "-1", "65536", "12a", " 1", "99999999999"] {
        let expected = s.parse::<u16>().ok();
        assert_eq!(parse_u16_chars(&chars_of(s)), expected, "input {:?}", s);
    }
}

#[test]
fn trimming_follows_str_trim() {
    for s in ["", "   ", " a b \t\n", "\u{3000}x\u{85}", "x", "\r\n8080\n"] {
        assert_eq!(trim_str(s), s.trim());
    }
}

#[test]
fn lines_follow_str_lines() {
    for s in ["", "\n", "a", "a\n", "a\nb", "a\r\nb\r\n", "a\r", "\n\nx\n\n", "a\rb\n"] {
        let expected: Vec<String> = s.lines().map(String::from).collect();
        assert_eq!(strs(&split_lines(&chars_of(s))), expected, "input {:?}", s);
    }
}

#[test]
fn split_follows_str_split() {
    for s in ["", ";", "a;b", "a;;b;", "=;eth0;IPv4"] {
        let expected: Vec<String> = s.split(';').map(String::from).collect();
        assert_eq!(strs(&split_chars(&chars_of(s), ';')), expected, "input {:?}", s);
    }
}

#[test]
fn words_follow_split_whitespace() {
    for s in ["", "   ", "a", " a  b\tc\n", "2: wlan0    inet 192.168.4.64/24 brd"] {
        let expected: Vec<String> = s.split_whitespace().map(String::from).collect();
        assert_eq!(strs(&split_words(&chars_of(s))), expected, "input {:?}", s);
    }
}

#[test]
fn find_follows_str_find() {
    let p = chars_of("dav://");
    assert_eq!(find_chars(&chars_of("Mount(0): x -> dav://h:1/"), &p), Some(15));
    assert_eq!(find_chars(&chars_of("no scheme here"), &p), None);
    assert_eq!(find_chars(&chars_of("dav://"), &p), Some(0));
    assert_eq!(find_chars(&chars_of("dav:/"), &p), None);
}

#[test]
fn joining() {
    let parts = vec!["a".to_string(), "b".to_string(), "c".to_string()];
    assert_eq!(join_strings(&parts, ", "), "a, b, c");
    assert_eq!(join_strings(&Vec::new(), " "), "");
    assert_eq!(join_strings(&vec!["x".to_string()], " "), "x");
}
