use todo_auth::base64url::{b64_decode_chars, b64_encode_chars};
use todo_auth::decimal::{format_u64, parse_u64_range};
use todo_auth::payload::{parse_payload_chars, write_payload};

fn chars(s: &str) -> Vec<char> {
    s.chars().collect()
}

fn string(v: &[char]) -> String {
    v.iter().collect()
}

#[test]
fn base64url_known_vectors() {
    for (plain, encoded) in [
        ("", ""),
        ("M", "TQ"),
        ("Ma", "TWE"),
        ("Man", "TWFu"),
        ("light work.", "bGlnaHQgd29yay4"),
        ("{\"sub\":\"x\",\"exp\":1}", "eyJzdWIiOiJ4IiwiZXhwIjoxfQ"),
    ] {
        let e = b64_encode_chars(&chars(plain));
        assert_eq!(string(&e), encoded);
        let d = b64_decode_chars(&e).unwrap();
        assert_eq!(string(&d), plain);
    }
}

#[test]
fn base64url_rejects_padding_and_bad_lengths() {
    for bad in ["TQ==", "T", "TWFu=", "A", "ABCDE", "T.Q", "TQ\n"] {
        assert!(b64_decode_chars(&chars(bad)).is_none(), "{:?}", bad);
    }
    // non-canonical trailing bits are rejected: "TR" carries the same first
    // six bits as "TQ" but non-zero leftovers
    assert!(b64_decode_chars(&chars("TR")).is_none());
}

#[test]
fn decimal_formats_and_parses_back() {
    for (n, text) in [
        (0u64, "0"),
        (7, "7"),
        (42, "42"),
        (1_000, "1000"),
        (1_234_567_890, "1234567890"),
        (u64::MAX, "18446744073709551615"),
    ] {
        let f = format_u64(n);
        assert_eq!(string(&f), text);
        let v = chars(text);
        assert_eq!(parse_u64_range(&v, 0, v.len()), Some(n));
    }
}

#[test]
fn decimal_parse_rejects_overflow_and_junk() {
    let too_big = chars("18446744073709551616");
    assert_eq!(parse_u64_range(&too_big, 0, too_big.len()), None);
    let junk = chars("12a4");
    assert_eq!(parse_u64_range(&junk, 0, junk.len()), None);
    let empty = chars("");
    assert_eq!(parse_u64_range(&empty, 0, 0), None);
    // a sub-range parses exactly the digits it covers
    let v = chars("xx987yy");
    assert_eq!(parse_u64_range(&v, 2, 5), Some(987));
}

#[test]
fn payload_writes_canonically_and_parses_back() {
    let p = write_payload(&chars("user-1"), 123);
    assert_eq!(string(&p), "{\"sub\":\"user-1\",\"exp\":123}");
    let (sub, exp) = parse_payload_chars(&p).unwrap();
    assert_eq!(string(&sub), "user-1");
    assert_eq!(exp, 123);
}

#[test]
fn payload_parser_is_strict() {
    for bad in [
        "",
        "{}",
        "{\"sub\":\"a\"}",
        "{\"exp\":1,\"sub\":\"a\"}",
        "{ \"sub\":\"a\",\"exp\":1}",
        "{\"sub\":\"a\",\"exp\":1 }",
        "{\"sub\":\"a\",\"exp\":}",
        "{\"sub\":\"a\",\"exp\":1",
        "{\"sub\":\"a\",\"exp\":18446744073709551616}",
        "{\"sub\":\"a\\b\",\"exp\":1}",
        "{\"sub\":\"a\tb\",\"exp\":1}",
    ] {
        assert!(parse_payload_chars(&chars(bad)).is_none(), "{:?}", bad);
    }
}
