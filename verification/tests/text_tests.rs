use bargozin::text::{
    decimal_string, escape_for_shell, first_nonblank_line_exec, nth_word, second_field_exec,
    str_contains, trim_str, chars_of, replace_all_exec, char_is_space,
};

fn chars(s: &str) -> Vec<char> {
    s.chars().collect()
}

#[test]
fn trim_takes_off_unicode_white_space() {
    assert_eq!(trim_str("  \t hello world \r\n"), "hello world");
    assert_eq!(trim_str("\u{3000}x\u{a0}"), "x");
    assert_eq!(trim_str("   "), "");
    assert_eq!(trim_str(""), "");
}

#[test]
fn white_space_matches_std() {
    for c in ['\t', '\n', '\u{b}', '\u{c}', '\r', ' ', '\u{85}', '\u{a0}', '\u{1680}', '\u{2000}', '\u{200a}', '\u{2028}', '\u{2029}', '\u{202f}', '\u{205f}', '\u{3000}', 'a', '0', '\u{200b}', '\u{feff}'] {
        assert_eq!(char_is_space(c), c.is_whitespace(), "{:?}", c);
    }
}

#[test]
fn escape_doubles_backslashes_then_quotes() {
    assert_eq!(escape_for_shell(r#"Wi-Fi"#), "Wi-Fi");
    assert_eq!(escape_for_shell(r#"a"b"#), r#"a\"b"#);
    assert_eq!(escape_for_shell(r#"a\b"#), r#"a\\b"#);
    assert_eq!(escape_for_shell(r#"\""#), r#"\\\""#);
}

/// Reads the inside of a double-quoted shell word back, as far as quotes and
/// backslashes go.
fn read_back(t: &str) -> Option<String> {
    let mut out = String::new();
    let mut it = t.chars();
    while let Some(c) = it.next() {
        match c {
            '\\' => out.push(it.next()?),
            '"' => return None,
            _ => out.push(c),
        }
    }
    Some(out)
}

#[test]
fn escaped_value_reads_back_unchanged() {
    for s in [r#"My "Office" Wi-Fi"#, r#"C:\net\"x"#, "", r#"\\\\"#, r#"""""#] {
        assert_eq!(read_back(&escape_for_shell(s)), Some(s.to_string()));
    }
}

#[test]
fn first_nonblank_line_is_trimmed() {
    assert_eq!(first_nonblank_line_exec("\n   \n  Wired connection 1  \nother\n"), Some("Wired connection 1".to_string()));
    assert_eq!(first_nonblank_line_exec("home\r\nwork\r\n"), Some("home".to_string()));
    assert_eq!(first_nonblank_line_exec("  \n\t\n"), None);
    assert_eq!(first_nonblank_line_exec(""), None);
}

#[test]
fn nth_word_follows_split_whitespace() {
    let s = "default via 192.168.1.1 dev eth0 proto dhcp metric 100\n";
    let v = chars(s);
    let (a, b) = nth_word(&v, 4).unwrap();
    assert_eq!(v[a..b].iter().collect::<String>(), "eth0");
    let (a, b) = nth_word(&v, 0).unwrap();
    assert_eq!(v[a..b].iter().collect::<String>(), "default");
    assert_eq!(nth_word(&chars("  a  b "), 2), None);
    assert_eq!(nth_word(&chars(""), 0), None);
}

#[test]
fn second_field_follows_split_colon() {
    let v = chars("  interface: en0");
    let (a, b) = second_field_exec(&v).unwrap();
    assert_eq!(v[a..b].iter().collect::<String>(), " en0");
    let v = chars("a:b:c");
    let (a, b) = second_field_exec(&v).unwrap();
    assert_eq!(v[a..b].iter().collect::<String>(), "b");
    let v = chars("a:");
    let (a, b) = second_field_exec(&v).unwrap();
    assert_eq!(a, b);
    assert_eq!(second_field_exec(&chars("no colon")), None);
}

#[test]
fn decimal_notation() {
    assert_eq!(decimal_string(0), "0");
    assert_eq!(decimal_string(7), "7");
    assert_eq!(decimal_string(403), "403");
    assert_eq!(decimal_string(u64::MAX), u64::MAX.to_string());
}

#[test]
fn contains_finds_substrings() {
    assert!(str_contains("Error: dismissed by user", " dismissed"));
    assert!(!str_contains("Error:dismissed", " dismissed"));
    assert!(str_contains("abc", ""));
    assert!(!str_contains("", "a"));
}

#[test]
fn replace_all_goes_left_to_right_without_overlap() {
    let r = replace_all_exec(&chars("aaaa"), &chars("aa"), &chars("b"));
    assert_eq!(r.iter().collect::<String>(), "bb");
    let r = replace_all_exec(&chars("http://x.com/http://"), &chars("http://"), &chars(""));
    assert_eq!(r.iter().collect::<String>(), "x.com/");
    assert_eq!(chars_of("héllo"), chars("héllo"));
}
