use authcore::b64::b64url_encode;
use authcore::jsonfmt::json_escape;
use authcore::jsonfmt::u64_to_dec;

#[test]
fn b64url_rfc4648_vectors() {
    assert_eq!(b64url_encode(b""), "");
    assert_eq!(b64url_encode(b"f"), "Zg");
    assert_eq!(b64url_encode(b"fo"), "Zm8");
    assert_eq!(b64url_encode(b"foo"), "Zm9v");
    assert_eq!(b64url_encode(b"foob"), "Zm9vYg");
    assert_eq!(b64url_encode(b"fooba"), "Zm9vYmE");
    assert_eq!(b64url_encode(b"foobar"), "Zm9vYmFy");
}

#[test]
fn b64url_uses_url_safe_alphabet() {
    // 0xfb 0xff packs to the six-bit values 62, 63, 60: '-', '_', '8'.
    assert_eq!(b64url_encode(&[0xfb, 0xff]), "-_8");
    assert_eq!(b64url_encode(&[0xff, 0xff, 0xff]), "____");
    assert_eq!(b64url_encode(&[0x00]), "AA");
}

#[test]
fn decimal_formatting() {
    assert_eq!(u64_to_dec(0), "0");
    assert_eq!(u64_to_dec(7), "7");
    assert_eq!(u64_to_dec(300), "300");
    assert_eq!(u64_to_dec(1234567890), "1234567890");
    assert_eq!(u64_to_dec(u64::MAX), "18446744073709551615");
}

#[test]
fn json_escaping() {
    assert_eq!(json_escape("plain"), "plain");
    assert_eq!(json_escape("a\"b"), "a\\\"b");
    assert_eq!(json_escape("a\\b"), "a\\\\b");
    assert_eq!(json_escape("line\nbreak"), "line\\u000abreak");
    assert_eq!(json_escape("tab\there"), "tab\\u0009here");
    assert_eq!(json_escape("h\u{e9}llo"), "h\u{e9}llo");
    assert_eq!(json_escape(""), "");
}
