//! URLs for streaming and cover art (built without any HTTP request).
use vstd::prelude::*;
use opensubsonic::Client;
use crate::text::{decimal, decimal_string, concat3, digit_char};

verus! {

/// The Subsonic API client of the `opensubsonic` crate (opaque here).
#[verifier::external_type_specification]
#[verifier::external_body]
pub struct ExClient(Client);

/// The `maxBitRate` parameter for a configured maximum bitrate: none when
/// the limit is 0 (unlimited), else the limit as an `i32`.
pub open spec fn bitrate_param(max_bitrate: u32) -> Option<i32> {
    if max_bitrate > 0 { Some(max_bitrate as i32) } else { None }
}

/// The `size` parameter for a cover-art size: none when 0 (server
/// default), else the size as an `i32`.
pub open spec fn size_param(size: u32) -> Option<i32> {
    if size > 0 { Some(size as i32) } else { None }
}

/// The `maxBitRate` parameter for a configured maximum bitrate.
pub fn stream_bitrate(max_bitrate: u32) -> (r: Option<i32>)
    ensures
        r == bitrate_param(max_bitrate),
{
    if max_bitrate > 0 {
        Some(max_bitrate as i32)
    } else {
        None
    }
}

/// The `size` parameter for a cover-art size.
pub fn cover_size(size: u32) -> (r: Option<i32>)
    ensures
        r == size_param(size),
{
    if size > 0 {
        Some(size as i32)
    } else {
        None
    }
}

/// A byte that form-urlencoding leaves as it is: an ASCII letter or
/// digit, `*`, `-`, `.` or `_`.
pub open spec fn form_byte_kept(b: u8) -> bool {
    (0x30 <= b <= 0x39) || (0x41 <= b <= 0x5A) || (0x61 <= b <= 0x7A) || b == 0x2A || b == 0x2D || b == 0x2E
        || b == 0x5F
}

/// The upper-case hexadecimal digit of `d` (below 16).
pub open spec fn hex_digit(d: int) -> char {
    if d < 10 {
        digit_char(d as nat)
    } else if d == 10 {
        'A'
    } else if d == 11 {
        'B'
    } else if d == 12 {
        'C'
    } else if d == 13 {
        'D'
    } else if d == 14 {
        'E'
    } else {
        'F'
    }
}

/// How form-urlencoding writes one byte: kept bytes as their character,
/// a space as `+`, any other byte as `%` and two upper-case hex digits.
pub open spec fn form_byte(b: u8) -> Seq<char> {
    if form_byte_kept(b) {
        seq![b as char]
    } else if b == 0x20 {
        seq!['+']
    } else {
        seq!['%', hex_digit(b as int / 16), hex_digit(b as int % 16)]
    }
}

/// The UTF-8 encoding of a character.
pub open spec fn utf8_of(c: char) -> Seq<u8> {
    let n = c as int;
    if n < 0x80 {
        seq![n as u8]
    } else if n < 0x800 {
        seq![(0xC0 + n / 64) as u8, (0x80 + n % 64) as u8]
    } else if n < 0x10000 {
        seq![(0xE0 + n / 4096) as u8, (0x80 + (n / 64) % 64) as u8, (0x80 + n % 64) as u8]
    } else {
        seq![
            (0xF0 + n / 262144) as u8,
            (0x80 + (n / 4096) % 64) as u8,
            (0x80 + (n / 64) % 64) as u8,
            (0x80 + n % 64) as u8,
        ]
    }
}

/// Form-urlencoding of a byte sequence, byte by byte.
pub open spec fn form_bytes(bs: Seq<u8>) -> Seq<char>
    decreases bs.len(),
{
    if bs.len() == 0 {
        Seq::empty()
    } else {
        form_bytes(bs.drop_last()) + form_byte(bs.last())
    }
}

/// Form-urlencoding (`application/x-www-form-urlencoded`) of a text: the
/// encoding of its UTF-8 bytes.
pub open spec fn form_encoded(s: Seq<char>) -> Seq<char>
    decreases s.len(),
{
    if s.len() == 0 {
        Seq::empty()
    } else {
        form_encoded(s.drop_last()) + form_bytes(utf8_of(s.last()))
    }
}

/// The text of an `i32` as `to_string` writes it: its decimal digits,
/// after a minus sign when it is negative.
pub open spec fn int_text(n: i32) -> Seq<char> {
    if n >= 0 {
        decimal(n as nat)
    } else {
        seq!['-'] + decimal((-(n as int)) as nat)
    }
}

/// The index of the first `c` in `s` from index `i` on, or the length of
/// `s` when there is none.
pub open spec fn index_from(s: Seq<char>, c: char, i: int) -> int
    decreases s.len() - i,
{
    if i >= s.len() {
        s.len() as int
    } else if s[i] == c {
        i
    } else {
        index_from(s, c, i + 1)
    }
}

/// The query of a serialized URL: the text between its first `?` and its
/// fragment (from the first `#`) or its end; empty when there is none.
/// (A serialized URL holds no literal `?` before its query and no literal
/// `#` before its fragment.)
pub open spec fn url_query(u: Seq<char>) -> Seq<char> {
    let q = index_from(u, '?', 0);
    let h = index_from(u, '#', 0);
    if q < h {
        u.subrange(q + 1, h)
    } else {
        Seq::empty()
    }
}

/// `t` ends `s`.
pub open spec fn has_suffix(s: Seq<char>, t: Seq<char>) -> bool {
    t.len() <= s.len() && s.subrange(s.len() - t.len(), s.len() as int) == t
}

/// The query pairs a media URL ends its own parameters with: `id=<id>`,
/// then `&<key>=<value>` when an optional value is given (`id` already
/// encoded; keys and numbers are left as they are by the encoding).
pub open spec fn media_query(id: Seq<char>, key: Seq<char>, value: Option<i32>) -> Seq<char> {
    "id="@ + id + match value {
        Some(v) => "&"@ + key + "="@ + int_text(v),
        None => Seq::<char>::empty(),
    }
}

/// The stream URL of song `id` with the given `maxBitRate`.
///
/// Trusted: calls `Client::stream_url` of `opensubsonic` with only the
/// bitrate option set, and renders the URL as text. In the crate's source
/// `stream_url` only builds the URL (`endpoint_url`, which always returns
/// `Ok`): the base URL with `/rest/stream` appended, the authentication,
/// version, client and format pairs, then `id` and, when given,
/// `maxBitRate`, each pair form-urlencoded (the `url` crate's
/// `byte_serialize` of the UTF-8 bytes) and joined by `&`; the format pair
/// always comes before them, and no later pair is added. So the result is
/// `Ok`, and its query ends with `&id=<encoded id>[&maxBitRate=<n>]`
/// (the fragment of the client's base URL, if any, follows the query).
/// The rest of the URL is not
/// stated: it depends on the client's server address and credentials, and
/// with token authentication on a fresh random salt.
#[verifier::external_body]
fn client_stream_url(client: &Client, id: &str, max_bit_rate: Option<i32>) -> (r: Result<String, String>)
    ensures
        r is Ok,
        has_suffix(url_query(r->Ok_0@), "&"@ + media_query(form_encoded(id@), "maxBitRate"@, max_bit_rate)),
{
    let mut options = opensubsonic::StreamOptions::new();
    options.max_bit_rate = max_bit_rate;
    match client.stream_url(id, &options) {
        Ok(url) => Ok(url.to_string()),
        Err(e) => Err(e.to_string()),
    }
}

/// The cover-art URL of `id` with the given `size`.
///
/// Trusted: calls `Client::cover_art_url` of `opensubsonic` and renders the
/// URL as text. As for the stream URL, the crate's source only builds the
/// URL (`/rest/getCoverArt` with `id` and, when given, `size`, after the
/// format pair), which always succeeds, and its query ends with
/// `&id=<encoded id>[&size=<n>]`; the rest of the URL is not stated, for
/// the same reasons.
#[verifier::external_body]
fn client_cover_art_url(client: &Client, id: &str, size: Option<i32>) -> (r: Result<String, String>)
    ensures
        r is Ok,
        has_suffix(url_query(r->Ok_0@), "&"@ + media_query(form_encoded(id@), "size"@, size)),
{
    match client.cover_art_url(id, size) {
        Ok(url) => Ok(url.to_string()),
        Err(e) => Err(e.to_string()),
    }
}

/// Build a streaming URL for a song. `max_bitrate == 0` means unlimited;
/// the request carries `bitrate_param(max_bitrate)`. Building never fails,
/// and the URL's query ends with `&id=<form-urlencoded id>`, followed by
/// `&maxBitRate=<n>` when there is a limit.
pub fn build_stream_url(client: &Client, song_id: &str, max_bitrate: u32) -> (r: Result<String, String>)
    ensures
        r is Ok,
        has_suffix(url_query(r->Ok_0@), "&"@ + media_query(form_encoded(song_id@), "maxBitRate"@, bitrate_param(max_bitrate))),
{
    client_stream_url(client, song_id, stream_bitrate(max_bitrate))
}

/// Build a cover-art URL for an album/artist. `size == 0` means server
/// default; the request carries `size_param(size)`. Building never fails,
/// and the URL's query ends with `&id=<form-urlencoded id>`, followed by
/// `&size=<n>` when a size is given.
pub fn build_cover_art_url(client: &Client, cover_id: &str, size: u32) -> (r: Result<String, String>)
    ensures
        r is Ok,
        has_suffix(url_query(r->Ok_0@), "&"@ + media_query(form_encoded(cover_id@), "size"@, size_param(size))),
{
    client_cover_art_url(client, cover_id, cover_size(size))
}

/// The disk-cache file name of cover `id` at `size` pixels.
pub open spec fn cover_file_name(id: Seq<char>, size: u32) -> Seq<char> {
    id + seq!['_'] + decimal(size as nat) + seq!['.', 'j', 'p', 'g']
}

/// The disk-cache file name of cover `id` at `size` pixels:
/// `<id>_<size>.jpg`.
pub fn cover_cache_file_name(id: &str, size: u32) -> (r: String)
    ensures
        r@ == cover_file_name(id@, size),
{
    let digits = decimal_string(size as u64);
    let mut r = concat3(id, "_", digits.as_str());
    r.append(".jpg");
    proof {
        reveal_strlit("_");
        reveal_strlit(".jpg");
        assert(r@ =~= cover_file_name(id@, size));
    }
    r
}

} // verus!
