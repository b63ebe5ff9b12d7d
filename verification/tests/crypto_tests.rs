use watt::lexer::address::Address;
use watt::vm::crypto::{b64_decode, b64_encode, md5, sha224, sha256, sha384, sha512};

#[test]
fn encodes_base64() {
    assert_eq!(b64_encode("hello"), "aGVsbG8=");
    assert_eq!(b64_encode(""), "");
}

#[test]
fn decodes_base64() {
    assert_eq!(b64_decode("aGVsbG8=", Address::unknown()).ok(), Some("hello".to_string()));
}

#[test]
fn reports_invalid_base64() {
    let e = b64_decode("!!!!", Address::new(4, 1, "f.wt".to_string())).err().unwrap();
    assert_eq!(e.text, "failed to decode b64 string");
    assert!(e.hint.starts_with("error: "));
    assert_eq!(e.addr, Address::new(4, 1, "f.wt".to_string()));
}

#[test]
fn reports_decoded_bytes_that_are_not_text() {
    let e = b64_decode("/w==", Address::unknown()).err().unwrap();
    assert_eq!(e.text, "failed to decode b64 string, bytes: [255]");
    assert!(e.hint.starts_with("error: "));
}

#[test]
fn hashes_in_lowercase_hex() {
    assert_eq!(sha256("abc"), "ba7816bf8f01cfea414140de5dae2223b00361a396177a9cb410ff61f20015ad");
    assert_eq!(sha224("abc"), "23097d223405d8228642a477bda255b32aadbce4bda0b3f7e36c9da7");
    assert_eq!(
        sha384("abc"),
        "cb00753f45a35e8bb5a03d699ac65007272c32ab0eded1631a8b605a43ff5bed8086072ba1e7cc2358baeca134c825a7"
    );
    assert_eq!(
        sha512("abc"),
        "ddaf35a193617abacc417349ae20413112e6fa4e89a97ea20a9eeee64b55d39a2192992a274fc1a836ba3c23a3feebbd454d4423643ce80e2a9ac94fa54ca49f"
    );
    assert_eq!(md5("abc"), "900150983cd24fb0d6963f7d28e17f72");
}
