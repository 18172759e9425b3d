//! What this crate takes from other crates: the message authentication
//! code, the base64 and hexadecimal codecs, the block cipher in counter
//! mode, the pattern matcher, addresses and header values, the byte buffer
//! and the JSON value.
//!
//! Each function here makes one such call, or the few calls that one
//! computation takes, and nothing else. Its contract is taken on trust from
//! the other crate's documentation and source; the rest of the crate is
//! proved from these contracts.

use aes::Aes128;
use base64::prelude::BASE64_STANDARD;
use base64::Engine;
use ctr::cipher::{KeyIvInit, StreamCipher};
use hex::FromHex;
use hmac::{Hmac, Mac};
use regex::Regex;
use reqwest::header::HeaderValue;
use reqwest::Url;
use serde_json::Value;
use sha2::Sha256;
use vstd::prelude::*;
use vstd::utf8::encode_utf8;

verus! {

/// The HMAC-SHA-256 authentication code of `message` under `key`.
pub uninterp spec fn hmac_sha256_mac(key: Seq<u8>, message: Seq<u8>) -> Seq<u8>;

/// Calls `Hmac::<Sha256>` of the `hmac` crate: `new_from_slice`, `update`,
/// `finalize`. Claimed: the result is a function of key and message alone,
/// and is 32 bytes long, the output size of SHA-256. A key of any length is
/// taken: the crate pads or hashes it to the block size and never refuses it.
#[verifier::external_body]
pub(crate) fn hmac_sha256(key: &[u8], message: &[u8]) -> (mac: Vec<u8>)
    ensures
        mac@ == hmac_sha256_mac(key@, message@),
        mac@.len() == 32,
{
    let mut mac = Hmac::<Sha256>::new_from_slice(key).expect("a key of any length is taken");
    mac.update(message);
    mac.finalize().into_bytes().to_vec()
}

/// The base64 text of `bytes` in the standard alphabet, with padding.
pub uninterp spec fn base64_standard(bytes: Seq<u8>) -> Seq<char>;

/// The number of characters that carry data in the base64 text of `count`
/// bytes: four for every three bytes, and two or three for the one or two
/// bytes left over. What follows them is padding.
pub open spec fn base64_data_len(count: nat) -> nat {
    if count % 3 == 0 {
        count / 3 * 4
    } else {
        count / 3 * 4 + count % 3 + 1
    }
}

/// Calls `Engine::encode` of the `base64` crate on its `STANDARD` engine.
/// Claimed: the result is a function of the input alone; it holds four
/// characters for every three bytes begun; the characters that carry data
/// come from an alphabet without `=`, and the padding after them is `=`
/// throughout. The call panics when the length does not fit in `usize`, so
/// such inputs are left out.
#[verifier::external_body]
pub(crate) fn base64_encode(bytes: &[u8]) -> (text: String)
    requires
        bytes@.len() / 3 * 4 + 4 <= usize::MAX,
    ensures
        text@ == base64_standard(bytes@),
        text@.len() == (bytes@.len() + 2) / 3 * 4,
        forall|i: int|
            0 <= i < text@.len() ==> ((#[trigger] text@[i]) == '=' <==> i >= base64_data_len(
                bytes@.len(),
            )),
{
    BASE64_STANDARD.encode(bytes)
}

/// The value of one hexadecimal digit given as an ASCII byte, in either
/// case; `None` for any other byte.
pub open spec fn hex_value(b: u8) -> Option<u8> {
    if 0x30 <= b <= 0x39 {
        Some((b - 0x30) as u8)
    } else if 0x41 <= b <= 0x46 {
        Some((b - 0x41 + 10) as u8)
    } else if 0x61 <= b <= 0x66 {
        Some((b - 0x61 + 10) as u8)
    } else {
        None
    }
}

/// Whether `hex` is exactly 32 hexadecimal digits.
pub open spec fn is_hex_key(hex: Seq<u8>) -> bool {
    &&& hex.len() == 32
    &&& forall|i: int| 0 <= i < 32 ==> (#[trigger] hex_value(hex[i])) is Some
}

/// The 16 bytes that 32 hexadecimal digits write, high digit first.
pub open spec fn hex_key_bytes(hex: Seq<u8>) -> Seq<u8> {
    Seq::new(
        16,
        |i: int| (hex_value(hex[2 * i])->0 * 16 + hex_value(hex[2 * i + 1])->0) as u8,
    )
}

/// Calls `FromHex::from_hex` of the `hex` crate for `[u8; 16]`. Claimed: it
/// succeeds exactly on 32 hexadecimal digits, upper or lower case, and then
/// each byte is its two digits, the first worth sixteen times the second.
/// Every error of the crate (odd length, wrong length, a byte that is no
/// digit) comes back as `None`.
#[verifier::external_body]
pub(crate) fn hex_decode_16(hex: &[u8]) -> (key: Option<[u8; 16]>)
    ensures
        key is Some <==> is_hex_key(hex@),
        key matches Some(k) ==> k@ == hex_key_bytes(hex@),
{
    <[u8; 16]>::from_hex(hex).ok()
}

/// The byte at `position` of the keystream that AES-128 in counter mode,
/// with a 128-bit big-endian counter, produces from `key` and the initial
/// counter block `iv`.
pub uninterp spec fn aes128_ctr_keystream(key: Seq<u8>, iv: Seq<u8>, position: int) -> u8;

/// Calls `KeyIvInit::new` and `StreamCipher::apply_keystream` of the `ctr`
/// crate on `Ctr128BE<Aes128>`. Claimed: each byte of the buffer is replaced
/// by its exclusive-or with the keystream byte of the same position, and
/// that byte depends on key, initial counter block and position alone. A
/// fresh cipher of this kind reports no limit on its keystream, so the call
/// does not panic.
#[verifier::external_body]
pub(crate) fn aes128_ctr_apply(key: &[u8; 16], iv: &[u8; 16], data: &mut Vec<u8>)
    ensures
        final(data)@.len() == old(data)@.len(),
        forall|i: int|
            0 <= i < old(data)@.len() ==> #[trigger] final(data)@[i] == old(data)@[i]
                ^ aes128_ctr_keystream(key@, iv@, i),
{
    let mut cipher = ctr::Ctr128BE::<Aes128>::new(&(*key).into(), &(*iv).into());
    cipher.apply_keystream(data);
}

/// What the first two capture groups of `pattern` hold in its leftmost
/// match within `haystack`. `None` when the pattern is not a valid regular
/// expression, when it matches nowhere, or when one of the two groups took
/// no part in the match.
pub uninterp spec fn regex_two_groups(pattern: Seq<char>, haystack: Seq<char>) -> Option<
    (Seq<char>, Seq<char>),
>;

/// Calls `Regex::new`, `Regex::captures` and `Captures::get` of the `regex`
/// crate. Claimed: the outcome is a function of pattern and haystack alone.
#[verifier::external_body]
pub(crate) fn regex_capture_two(pattern: &str, haystack: &str) -> (groups: Option<
    (String, String),
>)
    ensures
        match groups {
            Some((first, second)) => regex_two_groups(pattern@, haystack@) == Some(
                (first@, second@),
            ),
            None => regex_two_groups(pattern@, haystack@) is None,
        },
{
    let re = Regex::new(pattern).ok()?;
    let found = re.captures(haystack)?;
    Some((found.get(1)?.as_str().to_owned(), found.get(2)?.as_str().to_owned()))
}

/// The byte buffer of the `bytes` crate, in which a fetched payload arrives.
#[verifier::external_type_specification]
#[verifier::external_body]
pub struct ExBytes(bytes::Bytes);

/// The bytes that a buffer holds, in order.
pub uninterp spec fn bytes_contents(data: bytes::Bytes) -> Seq<u8>;

/// Copies a buffer out through its `Deref` to a byte slice. Claimed: the
/// copy holds the buffer's bytes in order.
#[verifier::external_body]
pub(crate) fn bytes_to_vec(data: &bytes::Bytes) -> (copy: Vec<u8>)
    ensures
        copy@ == bytes_contents(*data),
{
    data.to_vec()
}

/// The address that `base` becomes when the pairs are added to its query,
/// each name and value percent-encoded as a form field. `None` when `base`
/// is not an absolute address.
pub uninterp spec fn url_with_query(base: Seq<char>, pairs: Seq<(Seq<char>, Seq<char>)>) -> Option<
    Seq<char>,
>;

/// Calls `Url::parse_with_params` of the `url` crate, as `reqwest` hands it
/// on, and writes the address out as text. Claimed: the outcome is a
/// function of the base address and the pairs alone. The crate keeps
/// positions within an address as 32-bit numbers and panics when the place
/// where the query begins, or where a fragment is put back behind the
/// query, does not fit; so the base is to be short and without a fragment.
#[verifier::external_body]
pub(crate) fn build_url(base: &str, pairs: &Vec<(String, String)>) -> (url: Option<String>)
    requires
        base@.len() <= 1024,
        !base@.contains('#'),
    ensures
        match url {
            Some(text) => url_with_query(base@, pairs.deep_view()) == Some(text@),
            None => url_with_query(base@, pairs.deep_view()) is None,
        },
{
    Url::parse_with_params(base, pairs).ok().map(String::from)
}

/// Whether a byte may stand in the value of a header: a tab, or anything
/// from the space upwards except the delete character.
pub open spec fn header_byte_allowed(b: u8) -> bool {
    (b >= 32 && b != 127) || b == 9
}

/// Whether every byte may stand in the value of a header.
pub open spec fn header_value_allowed(bytes: Seq<u8>) -> bool {
    forall|i: int| 0 <= i < bytes.len() ==> header_byte_allowed(#[trigger] bytes[i])
}

/// Calls `HeaderValue::from_str` of the `http` crate, as `reqwest` hands it
/// on, and tells success from failure. Claimed: it succeeds exactly when
/// every byte of the text is a tab or is at least 32 and not 127.
#[verifier::external_body]
pub(crate) fn header_value_ok(text: &str) -> (ok: bool)
    ensures
        ok == header_value_allowed(encode_utf8(text@)),
{
    HeaderValue::from_str(text).is_ok()
}

/// The JSON value of the `serde_json` crate, in which the provider's
/// answers arrive.
#[verifier::external_type_specification]
#[verifier::external_body]
pub struct ExValue(Value);

/// What a JSON value holds: its compact JSON text.
pub uninterp spec fn json_text(value: Value) -> Seq<char>;

/// The text of the member `key` of the value that `document` writes:
/// `null` when the value is not an object or has no such member.
pub uninterp spec fn json_member(document: Seq<char>, key: Seq<char>) -> Seq<char>;

/// The text of the item at `index` of the value that `document` writes:
/// `null` when the value is not an array or is too short.
pub uninterp spec fn json_item(document: Seq<char>, index: nat) -> Seq<char>;

/// The characters of the string that `document` writes; `None` when it
/// writes anything but a string.
pub uninterp spec fn json_string(document: Seq<char>) -> Option<Seq<char>>;

/// The number of items of the array that `document` writes; `None` when it
/// writes anything but an array.
pub uninterp spec fn json_length(document: Seq<char>) -> Option<nat>;

/// Calls `to_string` on a `Value`, which writes it through its `Display` as
/// compact JSON. Claimed: the result is the text that stands for what the
/// value holds.
#[verifier::external_body]
pub(crate) fn json_to_string(value: &Value) -> (text: String)
    ensures
        text@ == json_text(*value),
{
    value.to_string()
}

/// Indexes a `Value` by a string. The crate hands back the member of an
/// object, and `Value::Null` for a missing member or a value that is no
/// object; it does not panic. Claimed: what the member holds depends on
/// what the value holds and on the key alone.
#[verifier::external_body]
pub(crate) fn json_get<'a>(value: &'a Value, key: &str) -> (member: &'a Value)
    ensures
        json_text(*member) == json_member(json_text(*value), key@),
{
    &value[key]
}

/// Indexes a `Value` by a position. The crate hands back the item of an
/// array, and `Value::Null` past its end or for a value that is no array;
/// it does not panic. Claimed: what the item holds depends on what the
/// value holds and on the position alone.
#[verifier::external_body]
pub(crate) fn json_at<'a>(value: &'a Value, index: usize) -> (item: &'a Value)
    ensures
        json_text(*item) == json_item(json_text(*value), index as nat),
{
    &value[index]
}

/// Calls `Value::as_str`: the characters of a string value, `None` for any
/// other value. Claimed: the outcome depends on what the value holds alone.
#[verifier::external_body]
pub(crate) fn json_as_str(value: &Value) -> (characters: Option<String>)
    ensures
        match characters {
            Some(s) => json_string(json_text(*value)) == Some(s@),
            None => json_string(json_text(*value)) is None,
        },
{
    value.as_str().map(str::to_owned)
}

/// Calls `Value::as_array` and takes the length: the number of items of an
/// array value, `None` for any other value. Claimed: the outcome depends on
/// what the value holds alone.
#[verifier::external_body]
pub(crate) fn json_len(value: &Value) -> (length: Option<usize>)
    ensures
        match length {
            Some(n) => json_length(json_text(*value)) == Some(n as nat),
            None => json_length(json_text(*value)) is None,
        },
{
    value.as_array().map(Vec::len)
}

} // verus!
