use ngx::string::{cmp_bytes, ngx_str_t, NgxStr};
use std::cmp::Ordering;

#[test]
fn ngx_str_views() {
    let s = NgxStr::new(b"hello".to_vec());
    assert_eq!(s.as_bytes(), &[104, 101, 108, 108, 111]);
    assert_eq!(s.to_str(), Ok("hello"));
    assert!(!s.is_empty());
    assert!(NgxStr::new(Vec::new()).is_empty());
}

#[test]
fn ngx_str_invalid_utf8() {
    let s = NgxStr::new(b"Hello \xF0\x90\x80World".to_vec());
    assert!(s.to_str().is_err());
    assert_eq!(s.to_string_lossy(), "Hello \u{FFFD}World");
}

#[test]
fn compare_ignoring_case() {
    let s = NgxStr::new(b"Content-Type".to_vec());
    assert_eq!(s.cmp_ignore_case_utf8("content-type"), Ordering::Equal);
    assert_eq!(s.cmp_ignore_case_utf8("CONTENT-TYPF"), Ordering::Less);
    assert_eq!(s.cmp_ignore_case_utf8("CONTENT"), Ordering::Greater);
    let u = NgxStr::new("ÄRGER".as_bytes().to_vec());
    assert_eq!(u.cmp_ignore_case_utf8("ärger"), Ordering::Equal);
}

#[test]
fn byte_order() {
    assert_eq!(cmp_bytes(b"abc", b"abd"), Ordering::Less);
    assert_eq!(cmp_bytes(b"ab", b"abc"), Ordering::Less);
    assert_eq!(cmp_bytes(b"b", b"abc"), Ordering::Greater);
    assert_eq!(cmp_bytes(b"", b""), Ordering::Equal);
}

#[test]
fn raw_nginx_string() {
    let s = ngx_str_t::from_bytes(b"abc");
    assert_eq!(s.len(), 3);
    assert_eq!(s.as_bytes(), b"abc");
    assert_eq!(s.to_str(), "abc");
    assert!(!s.is_empty());
    assert!(ngx_str_t::empty().is_empty());
}

#[test]
fn ngx_str_text_escapes_invalid_bytes() {
    let pairs: &[(&[u8], &str)] = &[
        (b"", ""),
        (b"Ferris the \xf0\x9f\xa6\x80", "Ferris the \u{1F980}"),
        (b"\xF0\x90\x80", "\\xf0\\x90\\x80"),
        (b"\xF0\x90\x80Hello World", "\\xf0\\x90\\x80Hello World"),
        (b"Hello \xF0\x90\x80World", "Hello \\xf0\\x90\\x80World"),
        (b"Hello World\xF0\x90\x80", "Hello World\\xf0\\x90\\x80"),
    ];

    for (bytes, expected) in pairs {
        let str = ngx_str_t::from_bytes(bytes);
        assert_eq!(str.to_string(), *expected);
    }
}

#[test]
fn small_invalid_bytes_have_one_hex_digit() {
    let s = ngx_str_t::from_bytes(b"a\x80b\xff");
    assert_eq!(s.to_string(), "a\\x80b\\xff");
    let chunks = vec![(String::from("ok"), vec![0x05u8, 0xc3])];
    assert_eq!(ngx::string::escape_chunks(&chunks), "ok\\x5\\xc3");
}
