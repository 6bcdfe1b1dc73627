//! Byte/text encodings used by the launcher: hex, base64, the
//! `application/x-www-form-urlencoded` byte serializer, and SHA-256.
//! Each is computed by the crate the launcher has always used for it; the
//! contracts below say what those crates compute.
use base64::Engine as _;
use sha2::Digest as _;
use vstd::prelude::*;
use vstd::utf8::{encode_utf8, is_ascii_chars, is_ascii_chars_encode_utf8};

verus! {

/// ASCII `0-9`, `A-F`, `a-f` as bytes.
pub open spec fn is_hex_byte(b: u8) -> bool {
    (48 <= b && b <= 57) || (65 <= b && b <= 70) || (97 <= b && b <= 102)
}

/// The value of a hex digit byte.
pub open spec fn hex_byte_value(b: u8) -> int {
    if b <= 57 {
        b - 48
    } else if b <= 70 {
        b - 55
    } else {
        b - 87
    }
}

/// `hex::decode`: an even number of hex digit bytes, read in pairs (high
/// nibble first), either case; anything else is rejected.
pub open spec fn spec_hex_decode(text: Seq<u8>) -> Option<Seq<u8>> {
    if text.len() % 2 == 0 && (forall|i: int| 0 <= i < text.len() ==> is_hex_byte(#[trigger] text[i])) {
        Some(
            Seq::new(
                (text.len() / 2) as nat,
                |i: int| (hex_byte_value(text[2 * i]) * 16 + hex_byte_value(text[2 * i + 1])) as u8,
            ),
        )
    } else {
        None
    }
}

/// The lower-case hex digit for `n` in `0..16`.
pub open spec fn lower_hex_char(n: int) -> char {
    if n < 10 {
        (n + 48) as char
    } else {
        (n + 87) as char
    }
}

/// The upper-case hex digit for `n` in `0..16`.
pub open spec fn upper_hex_char(n: int) -> char {
    if n < 10 {
        (n + 48) as char
    } else {
        (n + 55) as char
    }
}

/// `hex::encode`: two lower-case hex digits per byte, high nibble first.
pub open spec fn spec_hex_encode(data: Seq<u8>) -> Seq<char> {
    Seq::new(
        2 * data.len(),
        |i: int|
            if i % 2 == 0 {
                lower_hex_char((data[i / 2] / 16) as int)
            } else {
                lower_hex_char((data[i / 2] % 16) as int)
            },
    )
}

/// Decodes hex text (`hex::decode`).
#[verifier::external_body]
pub(crate) fn hex_decode(text: &[u8]) -> (res: Option<Vec<u8>>)
    ensures
        res.deep_view() == spec_hex_decode(text@),
{
    hex::decode(text).ok()
}

/// Encodes bytes as lower-case hex (`hex::encode`).
#[verifier::external_body]
pub(crate) fn hex_encode(data: &[u8]) -> (res: String)
    ensures
        res@ == spec_hex_encode(data@),
{
    hex::encode(data)
}

/// Bytes that the form-urlencoded serializer copies unchanged:
/// `*`, `-`, `.`, `_`, ASCII digits and letters.
pub open spec fn urlencoded_unchanged(b: u8) -> bool {
    b == 42 || b == 45 || b == 46 || b == 95 || (48 <= b && b <= 57) || (65 <= b && b <= 90) || (97
        <= b && b <= 122)
}

/// How the serializer writes one byte: unchanged, `+` for a space, or
/// `%XX` with upper-case hex.
pub open spec fn urlencode_byte(b: u8) -> Seq<char> {
    if urlencoded_unchanged(b) {
        seq![b as char]
    } else if b == 32 {
        seq!['+']
    } else {
        seq!['%', upper_hex_char((b / 16) as int), upper_hex_char((b % 16) as int)]
    }
}

/// `form_urlencoded::byte_serialize`, byte by byte.
pub open spec fn spec_urlencode(bytes: Seq<u8>) -> Seq<char>
    decreases bytes.len(),
{
    if bytes.len() == 0 {
        seq![]
    } else {
        urlencode_byte(bytes[0]) + spec_urlencode(bytes.drop_first())
    }
}

/// Form-urlencodes bytes (`form_urlencoded::byte_serialize`, collected).
#[verifier::external_body]
pub(crate) fn urlencode_bytes(bytes: &[u8]) -> (res: String)
    ensures
        res@ == spec_urlencode(bytes@),
{
    url::form_urlencoded::byte_serialize(bytes).collect()
}

/// The characters a form-urlencoded string can contain.
pub open spec fn is_urlencoded_char(c: char) -> bool {
    ('0' <= c && c <= '9') || ('a' <= c && c <= 'z') || ('A' <= c && c <= 'Z') || c == '*' || c
        == '-' || c == '.' || c == '_' || c == '+' || c == '%'
}

/// Serialized output never contains a character with meaning in a query
/// string (`&`, `=`, `#`, `?`, `/`, space), so an encoded value can't
/// break out of its parameter.
pub proof fn lemma_urlencode_charset(bytes: Seq<u8>)
    ensures
        forall|i: int|
            0 <= i < spec_urlencode(bytes).len() ==> is_urlencoded_char(
                #[trigger] spec_urlencode(bytes)[i],
            ),
    decreases bytes.len(),
{
    if bytes.len() > 0 {
        lemma_urlencode_charset(bytes.drop_first());
        let head = urlencode_byte(bytes[0]);
        let tail = spec_urlencode(bytes.drop_first());
        let b = bytes[0];
        assert forall|i: int| 0 <= i < head.len() implies is_urlencoded_char(#[trigger] head[i]) by {
            if urlencoded_unchanged(b) {
            } else if b == 32 {
            } else {
                assert(0 <= b / 16 < 16);
                assert(0 <= b % 16 < 16);
            }
        }
        assert forall|i: int| 0 <= i < (head + tail).len() implies is_urlencoded_char(
            #[trigger] (head + tail)[i],
        ) by {
            if i < head.len() {
                assert((head + tail)[i] == head[i]);
            } else {
                assert((head + tail)[i] == tail[i - head.len()]);
            }
        }
    }
}

/// The standard base64 alphabet (`A-Z`, `a-z`, `0-9`, `+`, `/`).
pub open spec fn base64_char(n: int) -> char {
    if n < 26 {
        (n + 65) as char
    } else if n < 52 {
        (n + 71) as char
    } else if n < 62 {
        (n - 4) as char
    } else if n == 62 {
        '+'
    } else {
        '/'
    }
}

/// Standard base64 with `=` padding: each 3-byte group becomes 4
/// characters; a final group of 1 or 2 bytes is padded to 4.
pub open spec fn spec_base64(data: Seq<u8>) -> Seq<char>
    decreases data.len(),
{
    if data.len() == 0 {
        seq![]
    } else if data.len() == 1 {
        seq![base64_char((data[0] / 4) as int), base64_char((data[0] % 4) * 16), '=', '=']
    } else if data.len() == 2 {
        seq![
            base64_char((data[0] / 4) as int),
            base64_char((data[0] % 4) * 16 + data[1] / 16),
            base64_char((data[1] % 16) * 4),
            '=',
        ]
    } else {
        seq![
            base64_char((data[0] / 4) as int),
            base64_char((data[0] % 4) * 16 + data[1] / 16),
            base64_char((data[1] % 16) * 4 + data[2] / 64),
            base64_char((data[2] % 64) as int),
        ] + spec_base64(data.subrange(3, data.len() as int))
    }
}

/// Base64-encodes bytes with the standard, padded engine
/// (`base64::engine::general_purpose::STANDARD.encode`).
#[verifier::external_body]
pub(crate) fn base64_encode(data: &[u8]) -> (res: String)
    ensures
        res@ == spec_base64(data@),
{
    base64::engine::general_purpose::STANDARD.encode(data)
}

/// The SHA-256 digest of `data` (FIPS 180-4), as computed by `sha2`.
pub uninterp spec fn spec_sha256(data: Seq<u8>) -> Seq<u8>;

/// SHA-256 of a byte string (`sha2::Sha256::digest`). A digest is always
/// 32 bytes.
#[verifier::external_body]
pub(crate) fn sha256(data: &[u8]) -> (res: Vec<u8>)
    ensures
        res@ == spec_sha256(data@),
        res@.len() == 32,
{
    sha2::Sha256::digest(data).to_vec()
}

/// The lower-case hex SHA-256 of `data` — the form manifests publish
/// checksums in.
pub fn sha256_hex(data: &[u8]) -> (res: String)
    ensures
        res@ == spec_hex_encode(spec_sha256(data@)),
        res@.len() == 64,
{
    let digest = sha256(data);
    hex_encode(digest.as_slice())
}


/// Lower-case hex digits.
pub open spec fn is_lower_hex_char(c: char) -> bool {
    ('0' <= c && c <= '9') || ('a' <= c && c <= 'f')
}

/// Hex encoding writes exactly two lower-case hex digits per byte.
pub proof fn law_hex_encode_shape(data: Seq<u8>)
    ensures
        spec_hex_encode(data).len() == 2 * data.len(),
        forall|i: int| 0 <= i < spec_hex_encode(data).len() ==> is_lower_hex_char(
            #[trigger] spec_hex_encode(data)[i],
        ),
{
    assert forall|i: int| 0 <= i < spec_hex_encode(data).len() implies is_lower_hex_char(
        #[trigger] spec_hex_encode(data)[i],
    ) by {
        let b = data[i / 2];
        assert(0 <= b / 16 < 16);
        assert(0 <= b % 16 < 16);
    }
}

/// Decoding the (UTF-8 bytes of the) hex encoding of any bytes gives
/// those bytes back.
pub proof fn law_hex_roundtrip(data: Seq<u8>)
    ensures
        spec_hex_decode(encode_utf8(spec_hex_encode(data))) == Some(data),
{
    let text = spec_hex_encode(data);
    law_hex_encode_shape(data);
    assert(is_ascii_chars(text));
    is_ascii_chars_encode_utf8(text);
    let bytes = encode_utf8(text);
    assert forall|i: int| 0 <= i < bytes.len() implies is_hex_byte(#[trigger] bytes[i]) by {
        assert(bytes[i] == text[i] as u8);
        let b = data[i / 2];
        assert(0 <= b / 16 < 16);
        assert(0 <= b % 16 < 16);
    }
    let decoded = spec_hex_decode(bytes)->0;
    assert forall|k: int| 0 <= k < data.len() implies #[trigger] decoded[k] == data[k] by {
        let b = data[k];
        assert(bytes[2 * k] == text[2 * k] as u8);
        assert(bytes[2 * k + 1] == text[2 * k + 1] as u8);
        assert((2 * k) / 2 == k);
        assert((2 * k + 1) / 2 == k);
        assert((2 * k) % 2 == 0);
        assert((2 * k + 1) % 2 == 1);
        assert(hex_byte_value(bytes[2 * k]) == b / 16);
        assert(hex_byte_value(bytes[2 * k + 1]) == b % 16);
        assert((b / 16) * 16 + b % 16 == b);
    }
    assert(decoded =~= data);
}

} // verus!
