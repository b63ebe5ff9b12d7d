use vstd::prelude::*;
use vstd::string::*;
use vstd::utf8::{decode_utf8, valid_utf8};
use base64::Engine;
use base64::prelude::BASE64_STANDARD;
use md5::Md5;
use sha2::{Digest, Sha224, Sha256, Sha384, Sha512};
use crate::errors::errors::{Error, ErrorView, error_of};
use crate::lexer::address::Address;
use crate::text::string_of;
use crate::vm::strings::digits_of;

verus! {

// ---------------------------------------------------------------------------
// The outside computations, each behind one trusted item.
// ---------------------------------------------------------------------------

/// The character of a six-bit value in the standard base64 alphabet.
pub open spec fn b64_char(v: int) -> char {
    "ABCDEFGHIJKLMNOPQRSTUVWXYZabcdefghijklmnopqrstuvwxyz0123456789+/"@[v]
}

/// The standard base64 text of some bytes: each group of three bytes gives
/// four characters, and a last group of one or two bytes is padded with `=`.
pub open spec fn base64_of(bytes: Seq<u8>) -> Seq<char>
    decreases bytes.len(),
{
    let b0 = if bytes.len() > 0 { bytes[0] as int } else { 0 };
    let b1 = if bytes.len() > 1 { bytes[1] as int } else { 0 };
    let b2 = if bytes.len() > 2 { bytes[2] as int } else { 0 };
    if bytes.len() == 0 {
        Seq::empty()
    } else if bytes.len() == 1 {
        seq![b64_char(b0 / 4), b64_char((b0 % 4) * 16), '=', '=']
    } else if bytes.len() == 2 {
        seq![b64_char(b0 / 4), b64_char((b0 % 4) * 16 + b1 / 16), b64_char((b1 % 16) * 4), '=']
    } else {
        seq![b64_char(b0 / 4), b64_char((b0 % 4) * 16 + b1 / 16), b64_char((b1 % 16) * 4 + b2 / 64), b64_char(b2 % 64)]
            + base64_of(bytes.subrange(3, bytes.len() as int))
    }
}

/// The `{:?}` text of the error that decoding `text` as base64 gives.
pub uninterp spec fn decode_error_debug(text: Seq<u8>) -> Seq<char>;

/// The `{:?}` text of the error that reading `bytes` as UTF-8 gives.
pub uninterp spec fn utf8_error_debug(bytes: Seq<u8>) -> Seq<char>;

/// The bytes a standard base64 text decodes to, where it is valid base64.
pub uninterp spec fn base64_decoding(text: Seq<u8>) -> Option<Seq<u8>>;

/// The SHA-256 digest of some bytes.
pub uninterp spec fn sha256_digest(bytes: Seq<u8>) -> Seq<u8>;

/// The SHA-224 digest of some bytes.
pub uninterp spec fn sha224_digest(bytes: Seq<u8>) -> Seq<u8>;

/// The SHA-384 digest of some bytes.
pub uninterp spec fn sha384_digest(bytes: Seq<u8>) -> Seq<u8>;

/// The SHA-512 digest of some bytes.
pub uninterp spec fn sha512_digest(bytes: Seq<u8>) -> Seq<u8>;

/// The MD5 digest of some bytes.
pub uninterp spec fn md5_digest(bytes: Seq<u8>) -> Seq<u8>;

/// The bytes in decimal, separated by `, `.
pub open spec fn bytes_list(bytes: Seq<u8>) -> Seq<char>
    decreases bytes.len(),
{
    if bytes.len() == 0 {
        Seq::empty()
    } else if bytes.len() == 1 {
        digits_of(bytes[0] as nat)
    } else {
        bytes_list(bytes.drop_last()) + ", "@ + digits_of(bytes.last() as nat)
    }
}

/// The text `{:?}` writes for a list of bytes: `[`, the decimal bytes
/// separated by `, `, and `]`.
pub open spec fn bytes_debug(bytes: Seq<u8>) -> Seq<char> {
    "["@ + bytes_list(bytes) + "]"@
}

/// `BASE64_STANDARD.encode` (base64 crate): the standard padded base64 text
/// of the bytes. Trusted: the result is `base64_of`.
#[verifier::external_body]
fn base64_encode(bytes: &[u8]) -> (r: String)
    ensures
        r@ == base64_of(bytes@),
{
    BASE64_STANDARD.encode(bytes)
}

/// `BASE64_STANDARD.decode` (base64 crate), its error given as its `{:?}`
/// text. Trusted: it succeeds exactly where the named function
/// `base64_decoding` gives bytes, and gives those; the error text is the
/// named function `decode_error_debug` of the input.
#[verifier::external_body]
fn base64_decode(text: &[u8]) -> (r: Result<Vec<u8>, String>)
    ensures
        match r {
            Ok(v) => base64_decoding(text@) == Some(v@),
            Err(t) => base64_decoding(text@) is None && t@ == decode_error_debug(text@),
        },
{
    match BASE64_STANDARD.decode(text) {
        Ok(v) => Ok(v),
        Err(e) => Err(format!("{:?}", e)),
    }
}

/// `String::from_utf8` (std), its error given as its `{:?}` text. Trusted:
/// it succeeds exactly on valid UTF-8 and then decodes it; the error text
/// is the named function `utf8_error_debug` of the bytes.
#[verifier::external_body]
fn utf8_text(bytes: Vec<u8>) -> (r: Result<String, String>)
    ensures
        match r {
            Ok(s) => valid_utf8(bytes@) && s@ == decode_utf8(bytes@),
            Err(t) => !valid_utf8(bytes@) && t@ == utf8_error_debug(bytes@),
        },
{
    match String::from_utf8(bytes) {
        Ok(s) => Ok(s),
        Err(e) => Err(format!("{:?}", e)),
    }
}

/// `format!("{:?}", bytes)`: the list of bytes as `{:?}` writes it.
/// Trusted: the result is `bytes_debug`.
#[verifier::external_body]
fn bytes_text(bytes: &[u8]) -> (r: String)
    ensures
        r@ == bytes_debug(bytes@),
{
    format!("{:?}", bytes)
}

/// `Sha256::digest` (sha2 crate), as a byte vector. Trusted: the result is
/// the named function `sha256_digest`, 32 bytes long.
#[verifier::external_body]
fn sha256_bytes(bytes: &[u8]) -> (r: Vec<u8>)
    ensures
        r@ == sha256_digest(bytes@),
        r@.len() == 32,
{
    Sha256::digest(bytes).to_vec()
}

/// `Sha224::digest` (sha2 crate), as a byte vector. Trusted: the result is
/// the named function `sha224_digest`, 28 bytes long.
#[verifier::external_body]
fn sha224_bytes(bytes: &[u8]) -> (r: Vec<u8>)
    ensures
        r@ == sha224_digest(bytes@),
        r@.len() == 28,
{
    Sha224::digest(bytes).to_vec()
}

/// `Sha384::digest` (sha2 crate), as a byte vector. Trusted: the result is
/// the named function `sha384_digest`, 48 bytes long.
#[verifier::external_body]
fn sha384_bytes(bytes: &[u8]) -> (r: Vec<u8>)
    ensures
        r@ == sha384_digest(bytes@),
        r@.len() == 48,
{
    Sha384::digest(bytes).to_vec()
}

/// `Sha512::digest` (sha2 crate), as a byte vector. Trusted: the result is
/// the named function `sha512_digest`, 64 bytes long.
#[verifier::external_body]
fn sha512_bytes(bytes: &[u8]) -> (r: Vec<u8>)
    ensures
        r@ == sha512_digest(bytes@),
        r@.len() == 64,
{
    Sha512::digest(bytes).to_vec()
}

/// `Md5::digest` (md-5 crate), as a byte vector. Trusted: the result is the
/// named function `md5_digest`, 16 bytes long.
#[verifier::external_body]
fn md5_bytes(bytes: &[u8]) -> (r: Vec<u8>)
    ensures
        r@ == md5_digest(bytes@),
        r@.len() == 16,
{
    Md5::digest(bytes).to_vec()
}

/// The lowercase hexadecimal text of some bytes: two digits a byte, the
/// high half first.
pub open spec fn hex_of(bytes: Seq<u8>) -> Seq<char>
    decreases bytes.len(),
{
    if bytes.len() == 0 {
        Seq::empty()
    } else {
        hex_of(bytes.drop_last()) + seq!["0123456789abcdef"@[(bytes.last() / 16) as int], "0123456789abcdef"@[(bytes.last() % 16) as int]]
    }
}

/// `hex::encode` (hex crate). Trusted: each byte becomes two lowercase hex
/// digits, the high half first, as the crate documents.
#[verifier::external_body]
fn hex_encode(bytes: &[u8]) -> (r: String)
    ensures
        r@ == hex_of(bytes@),
{
    hex::encode(bytes)
}

// ---------------------------------------------------------------------------
// The `crypto@...` natives.
// ---------------------------------------------------------------------------

/// `crypto@b64_encode`: the standard base64 text of a text's UTF-8 bytes.
pub fn b64_encode(text: &str) -> (r: String)
    ensures
        r@ == base64_of(text.spec_bytes()),
{
    base64_encode(text.as_bytes())
}

/// What `crypto@b64_decode` gives for a text at `addr`: the decoded text,
/// or an error when the text is not base64 or its bytes are not UTF-8.
pub open spec fn b64_decoded(text: Seq<u8>, addr: Address) -> Result<Seq<char>, ErrorView> {
    match base64_decoding(text) {
        None => Err(error_of(addr, "failed to decode b64 string"@, "error: "@ + decode_error_debug(text))),
        Some(bytes) => if valid_utf8(bytes) {
            Ok(decode_utf8(bytes))
        } else {
            Err(error_of(addr, "failed to decode b64 string, bytes: "@ + bytes_debug(bytes), "error: "@ + utf8_error_debug(bytes)))
        },
    }
}

/// `crypto@b64_decode`: decodes standard base64 into a text.
pub fn b64_decode(text: &str, addr: Address) -> (r: Result<String, Error>)
    ensures
        b64_decoded(text.spec_bytes(), addr) == match r {
            Ok(s) => Ok::<Seq<char>, ErrorView>(s@),
            Err(e) => Err::<Seq<char>, ErrorView>(e@),
        },
{
    match base64_decode(text.as_bytes()) {
        Ok(decoded) => {
            let shown = bytes_text(decoded.as_slice());
            let ghost bytes = decoded@;
            match utf8_text(decoded) {
                Ok(s) => Ok(s),
                Err(t) => {
                    let mut message = string_of("failed to decode b64 string, bytes: ");
                    message.append(shown.as_str());
                    let mut hint = string_of("error: ");
                    hint.append(t.as_str());
                    Err(Error::own(addr, message, hint))
                },
            }
        },
        Err(t) => {
            let mut hint = string_of("error: ");
            hint.append(t.as_str());
            Err(Error::own_hint(addr, "failed to decode b64 string", hint))
        },
    }
}

/// `crypto@sha256`: the lowercase hex SHA-256 digest of a text's bytes.
pub fn sha256(text: &str) -> (r: String)
    ensures
        r@ == hex_of(sha256_digest(text.spec_bytes())),
{
    let digest = sha256_bytes(text.as_bytes());
    hex_encode(digest.as_slice())
}

/// `crypto@sha224`: the lowercase hex SHA-224 digest of a text's bytes.
pub fn sha224(text: &str) -> (r: String)
    ensures
        r@ == hex_of(sha224_digest(text.spec_bytes())),
{
    let digest = sha224_bytes(text.as_bytes());
    hex_encode(digest.as_slice())
}

/// `crypto@sha384`: the lowercase hex SHA-384 digest of a text's bytes.
pub fn sha384(text: &str) -> (r: String)
    ensures
        r@ == hex_of(sha384_digest(text.spec_bytes())),
{
    let digest = sha384_bytes(text.as_bytes());
    hex_encode(digest.as_slice())
}

/// `crypto@sha512`: the lowercase hex SHA-512 digest of a text's bytes.
pub fn sha512(text: &str) -> (r: String)
    ensures
        r@ == hex_of(sha512_digest(text.spec_bytes())),
{
    let digest = sha512_bytes(text.as_bytes());
    hex_encode(digest.as_slice())
}

/// `crypto@md5`: the lowercase hex MD5 digest of a text's bytes.
pub fn md5(text: &str) -> (r: String)
    ensures
        r@ == hex_of(md5_digest(text.spec_bytes())),
{
    let digest = md5_bytes(text.as_bytes());
    hex_encode(digest.as_slice())
}

} // verus!
