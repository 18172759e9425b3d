//! The provider's protocol: media kinds and audio formats, the request
//! signature, the two signed requests, the payload cipher and the shape of a
//! link.

use crate::error::DownloadError;
use crate::primitives::{
    aes128_ctr_apply, aes128_ctr_keystream, base64_encode, base64_standard, build_url,
    bytes_contents, bytes_to_vec, header_value_allowed, header_value_ok, hex_decode_16,
    hex_key_bytes, hmac_sha256, hmac_sha256_mac, is_hex_key, json_as_str, json_at, json_get,
    json_item, json_len, json_length, json_member, json_string, json_text, regex_capture_two,
    regex_two_groups, url_with_query,
};
use crate::text::{
    decimal, decimal_string, drop_last_char, join, join_strings, remove_char, str_eq,
    without_char, without_last,
};
use serde_json::Value;
use vstd::prelude::*;
use vstd::utf8::encode_utf8;

verus! {

/// What a link points at.
#[derive(Clone, Copy, Debug, PartialEq, Eq, Structural)]
pub enum MediaType {
    Track,
    Album,
    Artist,
    Playlist,
}

/// The file container of a payload.
#[derive(Clone, Copy, Debug, PartialEq, Eq, Structural)]
pub enum Container {
    Flac,
    MP3,
    M4A,
}

/// The audio encoding inside the container.
#[derive(Clone, Copy, Debug, PartialEq, Eq, Structural)]
pub enum Codec {
    Flac,
    MP3,
    Aac,
}

/// A container together with the codec it carries.
#[derive(Clone, Copy, Debug, PartialEq, Eq, Structural)]
pub struct Format(pub Container, pub Codec);

impl Format {
    /// The file extension of the container, as a sequence of characters.
    pub open spec fn spec_file_format(self) -> Seq<char> {
        match self.0 {
            Container::Flac => "flac"@,
            Container::MP3 => "mp3"@,
            Container::M4A => "m4a"@,
        }
    }

    /// The file extension that a payload of this format is stored under.
    pub fn file_format(&self) -> (extension: String)
        ensures
            extension@ == self.spec_file_format(),
    {
        let extension: &str = match self.0 {
            Container::Flac => "flac",
            Container::MP3 => "mp3",
            Container::M4A => "m4a",
        };
        extension.to_owned()
    }
}

/// The codec table: the format that each codec identifier of the provider
/// stands for. Identifiers are matched exactly and case matters; anything
/// else is unsupported.
pub open spec fn resolve_codec(codec: Seq<char>) -> Result<Format, DownloadError> {
    if codec == "flac"@ {
        Ok(Format(Container::Flac, Codec::Flac))
    } else if codec == "flac-mp4"@ {
        Ok(Format(Container::M4A, Codec::Flac))
    } else if codec == "mp3"@ {
        Ok(Format(Container::MP3, Codec::MP3))
    } else if codec == "aac"@ || codec == "he-aac"@ || codec == "aac-mp4"@ || codec
        == "he-aac-mp4"@ {
        Ok(Format(Container::M4A, Codec::Aac))
    } else {
        Err(DownloadError::UnsupportedCodec)
    }
}

/// Looks a codec identifier up in the codec table.
pub fn codec2format(codec: &str) -> (format: Result<Format, DownloadError>)
    ensures
        format == resolve_codec(codec@),
{
    if str_eq(codec, "flac") {
        Ok(Format(Container::Flac, Codec::Flac))
    } else if str_eq(codec, "flac-mp4") {
        Ok(Format(Container::M4A, Codec::Flac))
    } else if str_eq(codec, "mp3") {
        Ok(Format(Container::MP3, Codec::MP3))
    } else if str_eq(codec, "aac") || str_eq(codec, "he-aac") || str_eq(codec, "aac-mp4")
        || str_eq(codec, "he-aac-mp4") {
        Ok(Format(Container::M4A, Codec::Aac))
    } else {
        Err(DownloadError::UnsupportedCodec)
    }
}

/// The codec identifiers offered to the provider, in the order offered.
pub open spec fn offered_codecs() -> Seq<Seq<char>> {
    seq!["flac"@, "flac-mp4"@, "mp3"@, "aac"@, "he-aac"@, "aac-mp4"@, "he-aac-mp4"@]
}

/// Every codec that is offered to the provider has an entry in the codec
/// table, so no answer that keeps to the offer can be unsupported.
pub proof fn offered_codecs_are_supported(i: int)
    requires
        0 <= i < offered_codecs().len(),
    ensures
        resolve_codec(offered_codecs()[i]) is Ok,
{
}

/// The key under which requests are signed, as bytes.
pub open spec fn signing_secret() -> Seq<u8> {
    encode_utf8("p93jhgh689SBReK6ghtw62"@)
}

/// The text that is signed: timestamp, track id, quality, the codec list
/// without its commas, and the transports, with nothing in between.
pub open spec fn signing_input(
    track_id: Seq<char>,
    timestamp: u64,
    quality: Seq<char>,
    codecs: Seq<char>,
    transports: Seq<char>,
) -> Seq<char> {
    decimal(timestamp as nat) + track_id + quality + without_char(codecs, ',') + transports
}

/// The signature of a descriptor request: the HMAC-SHA-256 code of the
/// signed text under the signing secret, written in base64, without the
/// last character of that text.
pub open spec fn signature(
    track_id: Seq<char>,
    timestamp: u64,
    quality: Seq<char>,
    codecs: Seq<char>,
    transports: Seq<char>,
) -> Seq<char> {
    without_last(
        base64_standard(
            hmac_sha256_mac(
                signing_secret(),
                encode_utf8(signing_input(track_id, timestamp, quality, codecs, transports)),
            ),
        ),
    )
}

/// Signs a descriptor request.
///
/// The result depends on the five arguments alone. It is always 43
/// characters long: the 44 characters that base64 needs for a 32-byte code,
/// less the one that is dropped. What is dropped is the one character of
/// padding, so no `=` is left in the signature.
pub fn sign(track_id: &str, timestamp: u64, quality: &str, codecs: &str, transports: &str) -> (sig:
    String)
    ensures
        sig@ == signature(track_id@, timestamp, quality@, codecs@, transports@),
        sig@.len() == 43,
        !sig@.contains('='),
{
    let mut input = decimal_string(timestamp);
    input.append(track_id);
    input.append(quality);
    let listed = remove_char(codecs, ',');
    input.append(listed.as_str());
    input.append(transports);
    let mac = hmac_sha256("p93jhgh689SBReK6ghtw62".as_bytes(), input.as_str().as_bytes());
    let encoded = base64_encode(mac.as_slice());
    let sig = drop_last_char(encoded.as_str());
    assert forall|i: int| 0 <= i < sig@.len() implies sig@[i] != '=' by {
        assert(sig@[i] == encoded@[i]);
    }
    sig
}

/// A request to the provider, as plain values: the address with its query,
/// and the headers in order. Sending it is the caller's part.
#[derive(Clone, Debug, PartialEq, Eq)]
pub struct ApiRequest {
    pub url: String,
    pub headers: Vec<(String, String)>,
}

/// What an [`ApiRequest`] holds, as sequences of characters.
pub ghost struct ApiRequestView {
    pub url: Seq<char>,
    pub headers: Seq<(Seq<char>, Seq<char>)>,
}

impl View for ApiRequest {
    type V = ApiRequestView;

    open spec fn view(&self) -> ApiRequestView {
        ApiRequestView { url: self.url@, headers: self.headers.deep_view() }
    }
}

/// The headers that every request to the provider carries: the token as an
/// OAuth credential, and the two that name the client.
pub open spec fn client_headers(token: Seq<char>) -> Seq<(Seq<char>, Seq<char>)> {
    seq![
        ("Authorization"@, "OAuth "@ + token),
        ("User-Agent"@, "Yandex-Music-API"@),
        ("X-Yandex-Music-Client"@, "YandexMusicAndroid/24023621"@),
    ]
}

/// The signature that a descriptor request carries: that of the track id
/// and the timestamp with the quality, the codecs and the transports that
/// every such request asks for.
pub open spec fn request_signature(track_id: Seq<char>, timestamp: u64) -> Seq<char> {
    signature(track_id, timestamp, "lossless"@, join(offered_codecs(), ","@), "encraw"@)
}

/// The query of a descriptor request, in order. The `ts` parameter and the
/// signature are made from the same timestamp.
pub open spec fn descriptor_query(track_id: Seq<char>, timestamp: u64) -> Seq<
    (Seq<char>, Seq<char>),
> {
    seq![
        ("ts"@, decimal(timestamp as nat)),
        ("trackId"@, track_id),
        ("quality"@, "lossless"@),
        ("codecs"@, join(offered_codecs(), ","@)),
        ("transports"@, "encraw"@),
        ("sign"@, request_signature(track_id, timestamp)),
    ]
}

/// The query of a metadata request: the ids joined by commas.
pub open spec fn metadata_query(track_ids: Seq<Seq<char>>) -> Seq<(Seq<char>, Seq<char>)> {
    seq![("track-ids"@, join(track_ids, ","@)), ("with-positions"@, "false"@)]
}

/// The request that goes to `url` under `token`. There is none, and
/// `failure` is reported, when the address could not be made or when the
/// token cannot stand in a header.
pub open spec fn authorized(
    url: Option<Seq<char>>,
    token: Seq<char>,
    failure: DownloadError,
) -> Result<ApiRequestView, DownloadError> {
    match url {
        Some(address) if header_value_allowed(encode_utf8("OAuth "@ + token)) => Ok(
            ApiRequestView { url: address, headers: client_headers(token) },
        ),
        _ => Err(failure),
    }
}

/// The request for the download descriptor of one track, signed for the
/// given time.
pub open spec fn descriptor_request(
    track_id: Seq<char>,
    token: Seq<char>,
    timestamp: u64,
) -> Result<ApiRequestView, DownloadError> {
    authorized(
        url_with_query(
            "https://api.music.yandex.net/get-file-info"@,
            descriptor_query(track_id, timestamp),
        ),
        token,
        DownloadError::DescriptorFetchFailed,
    )
}

/// The request for the metadata of the given tracks.
pub open spec fn metadata_request(track_ids: Seq<Seq<char>>, token: Seq<char>) -> Result<
    ApiRequestView,
    DownloadError,
> {
    authorized(
        url_with_query("https://api.music.yandex.net/tracks"@, metadata_query(track_ids)),
        token,
        DownloadError::MetadataFetchFailed,
    )
}

fn pair(name: &str, value: String) -> (entry: (String, String))
    ensures
        entry.0@ == name@,
        entry.1@ == value@,
{
    (name.to_owned(), value)
}

fn codec_list() -> (codecs: String)
    ensures
        codecs@ == join(offered_codecs(), ","@),
{
    let mut offered: Vec<String> = Vec::new();
    offered.push("flac".to_owned());
    offered.push("flac-mp4".to_owned());
    offered.push("mp3".to_owned());
    offered.push("aac".to_owned());
    offered.push("he-aac".to_owned());
    offered.push("aac-mp4".to_owned());
    offered.push("he-aac-mp4".to_owned());
    assert(offered.deep_view() =~= offered_codecs());
    join_strings(&offered, ",")
}

/// Puts a request together from its address and the token.
///
/// `url` is the address with its query, or `None` if it could not be made.
/// The request is refused with `failure` in that case, and also when the
/// credential `OAuth <token>` holds a byte that no header value may hold.
pub fn authorize(url: Option<String>, token: &str, failure: DownloadError) -> (request: Result<
    ApiRequest,
    DownloadError,
>)
    ensures
        match request {
            Ok(r) => authorized(url.deep_view(), token@, failure) == Ok::<
                ApiRequestView,
                DownloadError,
            >(r@),
            Err(e) => authorized(url.deep_view(), token@, failure) == Err::<
                ApiRequestView,
                DownloadError,
            >(e),
        },
{
    let mut credential = "OAuth ".to_owned();
    credential.append(token);
    if !header_value_ok(credential.as_str()) {
        return Err(failure);
    }
    match url {
        None => Err(failure),
        Some(address) => {
            let mut headers: Vec<(String, String)> = Vec::new();
            headers.push(pair("Authorization", credential));
            headers.push(pair("User-Agent", "Yandex-Music-API".to_owned()));
            headers.push(pair("X-Yandex-Music-Client", "YandexMusicAndroid/24023621".to_owned()));
            assert(headers.deep_view() =~= client_headers(token@));
            Ok(ApiRequest { url: address, headers })
        },
    }
}

/// Builds the signed request for the download descriptor of `track_id`.
///
/// `timestamp` is the current Unix time in whole seconds, read once by the
/// caller. The descriptor is found in the answer's body under
/// `result.downloadInfo`. Fails with `DescriptorFetchFailed` when the token
/// cannot stand in a header. Whatever the track and the time, the signature
/// in the query is 43 characters long and holds no `=`.
pub fn download_info(track_id: &str, token: &String, timestamp: u64) -> (request: Result<
    ApiRequest,
    DownloadError,
>)
    ensures
        request_signature(track_id@, timestamp).len() == 43,
        !request_signature(track_id@, timestamp).contains('='),
        match request {
            Ok(r) => descriptor_request(track_id@, token@, timestamp) == Ok::<
                ApiRequestView,
                DownloadError,
            >(r@),
            Err(e) => descriptor_request(track_id@, token@, timestamp) == Err::<
                ApiRequestView,
                DownloadError,
            >(e),
        },
{
    let codecs = codec_list();
    let sig = sign(track_id, timestamp, "lossless", codecs.as_str(), "encraw");
    let mut query: Vec<(String, String)> = Vec::new();
    query.push(pair("ts", decimal_string(timestamp)));
    query.push(pair("trackId", track_id.to_owned()));
    query.push(pair("quality", "lossless".to_owned()));
    query.push(pair("codecs", codecs));
    query.push(pair("transports", "encraw".to_owned()));
    query.push(pair("sign", sig));
    assert(query.deep_view() =~= descriptor_query(track_id@, timestamp));
    proof {
        reveal_strlit("https://api.music.yandex.net/get-file-info");
    }
    let url = build_url("https://api.music.yandex.net/get-file-info", &query);
    authorize(url, token.as_str(), DownloadError::DescriptorFetchFailed)
}

/// Builds the request for the metadata of the given tracks. The list of
/// track records is found in the answer's body under `result`. Fails with
/// `MetadataFetchFailed` when the token cannot stand in a header.
pub fn tracks_info(track_ids: Vec<String>, token: &String) -> (request: Result<
    ApiRequest,
    DownloadError,
>)
    ensures
        match request {
            Ok(r) => metadata_request(track_ids.deep_view(), token@) == Ok::<
                ApiRequestView,
                DownloadError,
            >(r@),
            Err(e) => metadata_request(track_ids.deep_view(), token@) == Err::<
                ApiRequestView,
                DownloadError,
            >(e),
        },
{
    let mut query: Vec<(String, String)> = Vec::new();
    query.push(pair("track-ids", join_strings(&track_ids, ",")));
    query.push(pair("with-positions", "false".to_owned()));
    assert(query.deep_view() =~= metadata_query(track_ids.deep_view()));
    proof {
        reveal_strlit("https://api.music.yandex.net/tracks");
    }
    let url = build_url("https://api.music.yandex.net/tracks", &query);
    authorize(url, token.as_str(), DownloadError::MetadataFetchFailed)
}

/// What the provider issues for one track: where the encrypted payload can
/// be fetched (the first address is the one to use), the key of the cipher
/// in hexadecimal, and the codec identifier.
#[derive(Clone, Debug, PartialEq, Eq)]
pub struct DownloadDescriptor {
    pub urls: Vec<String>,
    pub key: String,
    pub codec: String,
}

/// What a [`DownloadDescriptor`] holds, as sequences of characters.
pub ghost struct DescriptorView {
    pub urls: Seq<Seq<char>>,
    pub key: Seq<char>,
    pub codec: Seq<char>,
}

impl View for DownloadDescriptor {
    type V = DescriptorView;

    open spec fn view(&self) -> DescriptorView {
        DescriptorView { urls: self.urls.deep_view(), key: self.key@, codec: self.codec@ }
    }
}

/// The initial counter block of the payload cipher: sixteen zero bytes. The
/// provider fixes it; each key is used for one payload only.
pub open spec fn zero_iv() -> Seq<u8> {
    Seq::new(16, |i: int| 0u8)
}

/// `data` with the keystream of AES-128 in counter mode laid over it: each
/// byte exclusive-or the keystream byte at its position.
pub open spec fn keystream_applied(key: Seq<u8>, iv: Seq<u8>, data: Seq<u8>) -> Seq<u8> {
    Seq::new(data.len(), |i: int| data[i] ^ aes128_ctr_keystream(key, iv, i))
}

/// The payload cipher undone. The key text must be 32 hexadecimal digits;
/// the 16 bytes they write are the AES-128 key, and the initial counter
/// block is zero.
pub open spec fn decrypted(data: Seq<u8>, key: Seq<char>) -> Result<Seq<u8>, DownloadError> {
    let hex = encode_utf8(key);
    if is_hex_key(hex) {
        Ok(keystream_applied(hex_key_bytes(hex), zero_iv(), data))
    } else {
        Err(DownloadError::MalformedKey)
    }
}

/// Laying the same keystream over a buffer twice gives the buffer back.
pub proof fn keystream_applied_twice(key: Seq<u8>, iv: Seq<u8>, data: Seq<u8>)
    ensures
        keystream_applied(key, iv, keystream_applied(key, iv, data)) == data,
{
    let once = keystream_applied(key, iv, data);
    let twice = keystream_applied(key, iv, once);
    assert forall|i: int| 0 <= i < data.len() implies twice[i] == data[i] by {
        let d = data[i];
        let k = aes128_ctr_keystream(key, iv, i);
        assert((d ^ k) ^ k == d) by (bit_vector);
    }
    assert(twice =~= data);
}

/// The cipher is its own inverse: what decrypting gives, decrypted again
/// under the same key, is the buffer that was started from. Encrypting and
/// decrypting are one operation.
pub proof fn decrypted_twice(data: Seq<u8>, key: Seq<char>)
    ensures
        decrypted(data, key) matches Ok(once) ==> decrypted(once, key) == Ok::<
            Seq<u8>,
            DownloadError,
        >(data),
{
    let hex = encode_utf8(key);
    if is_hex_key(hex) {
        keystream_applied_twice(hex_key_bytes(hex), zero_iv(), data);
    }
}

/// Undoes the payload cipher over the whole of `data`.
///
/// Fails with `MalformedKey`, and only so, when `key` is not 32 hexadecimal
/// digits.
pub fn decrypt_data(data: bytes::Bytes, key: String) -> (plain: Result<Vec<u8>, DownloadError>)
    ensures
        match plain {
            Ok(bytes) => decrypted(bytes_contents(data), key@) == Ok::<Seq<u8>, DownloadError>(
                bytes@,
            ),
            Err(e) => decrypted(bytes_contents(data), key@) == Err::<Seq<u8>, DownloadError>(e),
        },
{
    match hex_decode_16(key.as_str().as_bytes()) {
        None => Err(DownloadError::MalformedKey),
        Some(key_bytes) => {
            let iv: [u8; 16] = [0u8; 16];
            let mut buf = bytes_to_vec(&data);
            aes128_ctr_apply(&key_bytes, &iv, &mut buf);
            assert(iv@ =~= zero_iv());
            assert(buf@ =~= keystream_applied(key_bytes@, iv@, bytes_contents(data)));
            Ok(buf)
        },
    }
}

/// What a fetched payload becomes under its descriptor: the decrypted bytes
/// and the format that the descriptor's codec stands for. A malformed key is
/// reported before an unsupported codec.
pub open spec fn track_payload(descriptor: DescriptorView, data: Seq<u8>) -> Result<
    (Seq<u8>, Format),
    DownloadError,
> {
    match decrypted(data, descriptor.key) {
        Err(e) => Err(e),
        Ok(plain) => match resolve_codec(descriptor.codec) {
            Err(e) => Err(e),
            Ok(format) => Ok((plain, format)),
        },
    }
}

/// Turns the encrypted payload of a track, fetched in full from the first
/// address of its descriptor, into the decrypted audio and its format.
pub fn decode_track(descriptor: &DownloadDescriptor, data: bytes::Bytes) -> (track: Result<
    (Vec<u8>, Format),
    DownloadError,
>)
    ensures
        match track {
            Ok((bytes, format)) => track_payload(descriptor@, bytes_contents(data)) == Ok::<
                (Seq<u8>, Format),
                DownloadError,
            >((bytes@, format)),
            Err(e) => track_payload(descriptor@, bytes_contents(data)) == Err::<
                (Seq<u8>, Format),
                DownloadError,
            >(e),
        },
{
    let plain = match decrypt_data(data, descriptor.key.clone()) {
        Ok(plain) => plain,
        Err(e) => { return Err(e); },
    };
    match codec2format(descriptor.codec.as_str()) {
        Ok(format) => Ok((plain, format)),
        Err(e) => Err(e),
    }
}

/// The strings among the items of the array that `array` writes, from the
/// second item up to the place `count`, in order.
pub open spec fn later_strings(array: Seq<char>, count: nat) -> Seq<Seq<char>>
    decreases count,
{
    if count <= 1 {
        Seq::empty()
    } else {
        let before = later_strings(array, (count - 1) as nat);
        match json_string(json_item(array, (count - 1) as nat)) {
            Some(item) => before.push(item),
            None => before,
        }
    }
}

/// The addresses that a descriptor offers. The first item of `urls` is the
/// one to use and must be a string, or there are none; the strings among
/// the items after it follow in order.
pub open spec fn candidate_urls(urls: Seq<char>) -> Option<Seq<Seq<char>>> {
    match json_string(json_item(urls, 0)) {
        None => None,
        Some(first) => Some(
            seq![first] + later_strings(
                urls,
                match json_length(urls) {
                    Some(count) => count,
                    None => 0,
                },
            ),
        ),
    }
}

/// The descriptor that the JSON text `info` writes. There is one when the
/// first item of `urls` is a string and `key` and `codec` are strings.
pub open spec fn read_descriptor(info: Seq<char>) -> Option<DescriptorView> {
    let urls = candidate_urls(json_member(info, "urls"@));
    let key = json_string(json_member(info, "key"@));
    let codec = json_string(json_member(info, "codec"@));
    if urls is Some && key is Some && codec is Some {
        Some(DescriptorView { urls: urls->0, key: key->0, codec: codec->0 })
    } else {
        None
    }
}

fn urls_of(urls: &Value) -> (found: Option<Vec<String>>)
    ensures
        found.deep_view() == candidate_urls(json_text(*urls)),
        found matches Some(addresses) ==> addresses.len() > 0,
{
    let first = match json_as_str(json_at(urls, 0)) {
        Some(first) => first,
        None => { return None; },
    };
    let mut found: Vec<String> = Vec::new();
    found.push(first);
    assert(found.deep_view() =~= seq![first@]);
    let count = match json_len(urls) {
        Some(count) => count,
        None => 0,
    };
    let mut i: usize = 1;
    while i < count
        invariant
            1 <= i,
            i <= count || i == 1,
            found.len() > 0,
            found.deep_view() == seq![first@] + later_strings(json_text(*urls), i as nat),
        decreases count - i,
    {
        let ghost before = found.deep_view();
        match json_as_str(json_at(urls, i)) {
            Some(item) => {
                found.push(item);
                assert(found.deep_view() =~= before.push(item@));
            },
            None => {},
        }
        i = i + 1;
        assert(found.deep_view() =~= seq![first@] + later_strings(json_text(*urls), i as nat));
    }
    assert(later_strings(json_text(*urls), i as nat) == later_strings(
        json_text(*urls),
        count as nat,
    ));
    Some(found)
}

/// Reads a descriptor out of the JSON value that the provider issued.
pub fn descriptor_of(info: &Value) -> (descriptor: Option<DownloadDescriptor>)
    ensures
        match descriptor {
            Some(d) => read_descriptor(json_text(*info)) == Some(d@) && d.urls.len() > 0,
            None => read_descriptor(json_text(*info)) is None,
        },
{
    let urls = urls_of(json_get(info, "urls"));
    let key = json_as_str(json_get(info, "key"));
    let codec = json_as_str(json_get(info, "codec"));
    match (urls, key, codec) {
        (Some(urls), Some(key), Some(codec)) => Some(DownloadDescriptor { urls, key, codec }),
        _ => None,
    }
}

/// What the answer to a descriptor request yields: the descriptor under
/// `result.downloadInfo` of its body. A status outside 200..300, or a body
/// without a readable descriptor, is a failed fetch.
pub open spec fn answered_descriptor(status: u16, body: Seq<char>) -> Result<
    DescriptorView,
    DownloadError,
> {
    let info = json_member(json_member(body, "result"@), "downloadInfo"@);
    if 200 <= status < 300 && read_descriptor(info) is Some {
        Ok(read_descriptor(info)->0)
    } else {
        Err(DownloadError::DescriptorFetchFailed)
    }
}

/// Takes the descriptor out of the answer to a descriptor request.
pub fn descriptor_of_answer(status: u16, body: &Value) -> (descriptor: Result<
    DownloadDescriptor,
    DownloadError,
>)
    ensures
        match descriptor {
            Ok(d) => answered_descriptor(status, json_text(*body)) == Ok::<
                DescriptorView,
                DownloadError,
            >(d@) && d.urls.len() > 0,
            Err(e) => answered_descriptor(status, json_text(*body)) == Err::<
                DescriptorView,
                DownloadError,
            >(e),
        },
{
    if status < 200 || status >= 300 {
        return Err(DownloadError::DescriptorFetchFailed);
    }
    match descriptor_of(json_get(json_get(body, "result"), "downloadInfo")) {
        Some(descriptor) => Ok(descriptor),
        None => Err(DownloadError::DescriptorFetchFailed),
    }
}

/// What a fetched payload becomes under the descriptor that `info` writes.
/// Without a readable descriptor the fetch of it has failed.
pub open spec fn downloaded_track(info: Seq<char>, data: Seq<u8>) -> Result<
    (Seq<u8>, Format),
    DownloadError,
> {
    match read_descriptor(info) {
        Some(descriptor) => track_payload(descriptor, data),
        None => Err(DownloadError::DescriptorFetchFailed),
    }
}

/// Turns the encrypted payload of a track into the decrypted audio and its
/// format, under the descriptor that the provider issued as JSON.
pub fn download_track(download_info: Value, data: bytes::Bytes) -> (track: Result<
    (Vec<u8>, Format),
    DownloadError,
>)
    ensures
        match track {
            Ok((bytes, format)) => downloaded_track(
                json_text(download_info),
                bytes_contents(data),
            ) == Ok::<(Seq<u8>, Format), DownloadError>((bytes@, format)),
            Err(e) => downloaded_track(json_text(download_info), bytes_contents(data)) == Err::<
                (Seq<u8>, Format),
                DownloadError,
            >(e),
        },
{
    match descriptor_of(&download_info) {
        Some(descriptor) => decode_track(&descriptor, data),
        None => Err(DownloadError::DescriptorFetchFailed),
    }
}

/// The shape of a link: one of the four kind words, a slash, and an id made
/// of word characters, `-`, `.`, `_` and `@`, at the very end.
pub open spec fn url_pattern() -> Seq<char> {
    r"(album|track|artist|playlists)\/(\d+|[\w\-._@]+)$"@
}

/// The media kind that a kind word of a link names. The plural
/// `playlists` is the word that links carry.
pub open spec fn kind_of_word(word: Seq<char>) -> Option<MediaType> {
    if word == "track"@ {
        Some(MediaType::Track)
    } else if word == "album"@ {
        Some(MediaType::Album)
    } else if word == "artist"@ {
        Some(MediaType::Artist)
    } else if word == "playlists"@ {
        Some(MediaType::Playlist)
    } else {
        None
    }
}

/// The kind and id that the two captured parts of a link stand for. No
/// match, or a kind word that is none of the four, is an invalid link:
/// nothing defaults to a kind.
pub open spec fn resolve_captures(groups: Option<(Seq<char>, Seq<char>)>) -> Result<
    (MediaType, Seq<char>),
    DownloadError,
> {
    match groups {
        None => Err(DownloadError::InvalidUrl),
        Some((word, id)) => match kind_of_word(word) {
            None => Err(DownloadError::InvalidUrl),
            Some(kind) => Ok((kind, id)),
        },
    }
}

/// Names the media kind of a matched link and hands its id on.
pub fn kind_from_captures(groups: Option<(String, String)>) -> (kind: Result<
    (MediaType, String),
    DownloadError,
>)
    ensures
        match kind {
            Ok((media, id)) => resolve_captures(groups.deep_view()) == Ok::<
                (MediaType, Seq<char>),
                DownloadError,
            >((media, id@)),
            Err(e) => resolve_captures(groups.deep_view()) == Err::<
                (MediaType, Seq<char>),
                DownloadError,
            >(e),
        },
{
    match groups {
        None => Err(DownloadError::InvalidUrl),
        Some((word, id)) => {
            if str_eq(word.as_str(), "track") {
                Ok((MediaType::Track, id))
            } else if str_eq(word.as_str(), "album") {
                Ok((MediaType::Album, id))
            } else if str_eq(word.as_str(), "artist") {
                Ok((MediaType::Artist, id))
            } else if str_eq(word.as_str(), "playlists") {
                Ok((MediaType::Playlist, id))
            } else {
                Err(DownloadError::InvalidUrl)
            }
        },
    }
}

/// Resolves a link to its media kind and id.
///
/// The link is matched against [`url_pattern`]; a link that does not match
/// is refused with `InvalidUrl`.
pub fn get_kind(url: String) -> (kind: Result<(MediaType, String), DownloadError>)
    ensures
        match kind {
            Ok((media, id)) => resolve_captures(regex_two_groups(url_pattern(), url@)) == Ok::<
                (MediaType, Seq<char>),
                DownloadError,
            >((media, id@)),
            Err(e) => resolve_captures(regex_two_groups(url_pattern(), url@)) == Err::<
                (MediaType, Seq<char>),
                DownloadError,
            >(e),
        },
{
    let groups = regex_capture_two(
        r"(album|track|artist|playlists)\/(\d+|[\w\-._@]+)$",
        url.as_str(),
    );
    kind_from_captures(groups)
}

} // verus!
