//! The encodings a token passes through: the binary layout of requests and
//! envelopes, URL-safe base64, and percent-encoding.

use vstd::prelude::*;
use vstd::bytes::*;
use vstd::utf8::*;

verus! {

/// A block of bytes behind its length, the length as eight little-endian
/// bytes.
pub open spec fn framed(block: Seq<u8>) -> Seq<u8> {
    spec_u64_to_le_bytes(block.len() as u64) + block
}

/// Takes one framed block from the front of `bytes`: the block and what
/// follows it. `None` when the length prefix is incomplete or announces more
/// bytes than there are.
pub open spec fn unframed(bytes: Seq<u8>) -> Option<(Seq<u8>, Seq<u8>)> {
    if bytes.len() >= 8 && spec_u64_from_le_bytes(bytes.subrange(0, 8)) <= bytes.len() - 8 {
        let n = spec_u64_from_le_bytes(bytes.subrange(0, 8)) as int;
        Some((bytes.subrange(8, 8 + n), bytes.subrange(8 + n, bytes.len() as int)))
    } else {
        None
    }
}

/// The bytes of a request: the identifier as framed UTF-8, then the
/// timestamp as eight little-endian bytes in two's complement.
pub open spec fn request_wire(id: Seq<char>, timestamp: i64) -> Seq<u8> {
    framed(encode_utf8(id)) + spec_u64_to_le_bytes(timestamp as u64)
}

/// Reads a request back from its bytes. Bytes behind the timestamp are
/// ignored.
pub open spec fn request_unwired(bytes: Seq<u8>) -> Option<(Seq<char>, i64)> {
    match unframed(bytes) {
        Some((text, rest)) => if valid_utf8(text) && rest.len() >= 8 {
            Some((decode_utf8(text), spec_u64_from_le_bytes(rest.subrange(0, 8)) as i64))
        } else {
            None
        },
        None => None,
    }
}

/// The bytes of an envelope: the request bytes, framed, then the signature
/// bytes, framed.
pub open spec fn envelope_wire(request: Seq<u8>, sign: Seq<u8>) -> Seq<u8> {
    framed(request) + framed(sign)
}

/// Reads an envelope back from its bytes: request bytes and signature bytes.
/// Bytes behind the signature are ignored.
pub open spec fn envelope_unwired(bytes: Seq<u8>) -> Option<(Seq<u8>, Seq<u8>)> {
    match unframed(bytes) {
        Some((request, rest)) => match unframed(rest) {
            Some((sign, _)) => Some((request, sign)),
            None => None,
        },
        None => None,
    }
}

/// A framed block is read back as it was written, whatever follows it.
pub proof fn lemma_unframed_framed(block: Seq<u8>, tail: Seq<u8>)
    requires
        block.len() <= u64::MAX,
    ensures
        unframed(framed(block) + tail) == Some((block, tail)),
{
    lemma_auto_spec_u64_to_from_le_bytes();
    let prefix = spec_u64_to_le_bytes(block.len() as u64);
    let bytes = framed(block) + tail;
    assert(bytes.subrange(0, 8) =~= prefix);
    let n = block.len() as int;
    assert(bytes.subrange(8, 8 + n) =~= block);
    assert(bytes.subrange(8 + n, bytes.len() as int) =~= tail);
}

/// A request is read back from its bytes as it was written.
pub proof fn lemma_request_round_trip(id: Seq<char>, timestamp: i64)
    requires
        encode_utf8(id).len() <= u64::MAX,
    ensures
        request_unwired(request_wire(id, timestamp)) == Some((id, timestamp)),
{
    lemma_auto_spec_u64_to_from_le_bytes();
    let stamp = spec_u64_to_le_bytes(timestamp as u64);
    lemma_unframed_framed(encode_utf8(id), stamp);
    encode_utf8_valid_utf8(id);
    encode_utf8_decode_utf8(id);
    assert(stamp.subrange(0, 8) =~= stamp);
    assert((timestamp as u64) as i64 == timestamp) by (bit_vector);
}

/// An envelope is read back from its bytes as it was written.
pub proof fn lemma_envelope_round_trip(request: Seq<u8>, sign: Seq<u8>)
    requires
        request.len() <= u64::MAX,
        sign.len() <= u64::MAX,
    ensures
        envelope_unwired(envelope_wire(request, sign)) == Some((request, sign)),
{
    lemma_unframed_framed(request, framed(sign));
    lemma_unframed_framed(sign, Seq::<u8>::empty());
    assert(framed(sign) + Seq::<u8>::empty() =~= framed(sign));
}

/// Encodes a request with `bincode::serialize`, as the pair of its fields.
///
/// Trusted: bincode writes a pair field by field, a string as its byte
/// length in eight little-endian bytes followed by its UTF-8 bytes, and an
/// `i64` as eight little-endian bytes. With the unlimited default size and a
/// vector to write into, the call has no way to fail.
#[verifier::external_body]
pub(crate) fn serialize_request(id: &str, timestamp: i64) -> (bytes: Vec<u8>)
    ensures
        bytes@ == request_wire(id@, timestamp),
{
    bincode::serialize(&(id, timestamp)).unwrap_or_default()
}

/// Decodes a request with `bincode::deserialize`, as a pair of a string and
/// an `i64`.
///
/// Trusted: bincode reads the eight-byte length, fails when fewer bytes
/// remain than it announces or when they are not UTF-8, reads the eight
/// bytes of the integer, fails when they are not all there, and leaves
/// trailing bytes alone.
#[verifier::external_body]
pub(crate) fn deserialize_request(bytes: &[u8]) -> (request: Option<(String, i64)>)
    ensures
        match request {
            Some((id, timestamp)) => request_unwired(bytes@) == Some((id@, timestamp)),
            None => request_unwired(bytes@) is None,
        },
{
    bincode::deserialize::<(String, i64)>(bytes).ok()
}

/// Encodes an envelope with `bincode::serialize`, as the pair of its fields.
///
/// Trusted: bincode writes a pair field by field, and a byte sequence as
/// its length in eight little-endian bytes followed by the bytes. With the
/// unlimited default size and a vector to write into, the call has no way to
/// fail.
#[verifier::external_body]
pub(crate) fn serialize_envelope(request: &[u8], sign: &[u8]) -> (bytes: Vec<u8>)
    ensures
        bytes@ == envelope_wire(request@, sign@),
{
    bincode::serialize(&(request, sign)).unwrap_or_default()
}

/// Decodes an envelope with `bincode::deserialize`, as a pair of byte
/// vectors.
///
/// Trusted: for each of the two, bincode reads the eight-byte length and
/// then that many bytes, fails when they are not all there, and leaves
/// trailing bytes alone.
#[verifier::external_body]
pub(crate) fn deserialize_envelope(bytes: &[u8]) -> (envelope: Option<(Vec<u8>, Vec<u8>)>)
    ensures
        match envelope {
            Some((request, sign)) => envelope_unwired(bytes@) == Some((request@, sign@)),
            None => envelope_unwired(bytes@) is None,
        },
{
    bincode::deserialize::<(Vec<u8>, Vec<u8>)>(bytes).ok()
}

/// The character for a six-bit value in the URL-safe base64 alphabet:
/// `A` to `Z`, `a` to `z`, `0` to `9`, `-`, `_`.
pub open spec fn base64url_digit(value: int) -> char {
    if value < 26 {
        (0x41 + value) as char
    } else if value < 52 {
        (0x61 + value - 26) as char
    } else if value < 62 {
        (0x30 + value - 52) as char
    } else if value == 62 {
        '-'
    } else {
        '_'
    }
}

/// The URL-safe base64 text, without padding, of `data`: four characters
/// for every three bytes, and two or three characters for one or two bytes
/// that are left.
pub open spec fn base64url_encoded(data: Seq<u8>) -> Seq<char>
    decreases data.len(),
{
    if data.len() == 0 {
        Seq::empty()
    } else if data.len() == 1 {
        seq![base64url_digit((data[0] as int) / 4), base64url_digit(((data[0] as int) % 4) * 16)]
    } else if data.len() == 2 {
        seq![
            base64url_digit((data[0] as int) / 4),
            base64url_digit(((data[0] as int) % 4) * 16 + (data[1] as int) / 16),
            base64url_digit(((data[1] as int) % 16) * 4),
        ]
    } else {
        seq![
            base64url_digit((data[0] as int) / 4),
            base64url_digit(((data[0] as int) % 4) * 16 + (data[1] as int) / 16),
            base64url_digit(((data[1] as int) % 16) * 4 + (data[2] as int) / 64),
            base64url_digit((data[2] as int) % 64),
        ] + base64url_encoded(data.skip(3))
    }
}

/// Whether a character is one of the URL-safe base64 alphabet.
pub open spec fn is_url_safe(c: char) -> bool {
    let n = c as u32;
    (0x30 <= n <= 0x39) || (0x41 <= n <= 0x5A) || (0x61 <= n <= 0x7A) || n == 0x2D || n == 0x5F
}

/// Every six-bit value has a character of the alphabet.
pub proof fn lemma_digit_is_url_safe(value: int)
    requires
        0 <= value < 64,
    ensures
        is_url_safe(base64url_digit(value)),
{
}

/// URL-safe base64 text holds characters of its alphabet only.
pub proof fn lemma_base64url_is_url_safe(data: Seq<u8>)
    ensures
        forall|i: int|
            0 <= i < base64url_encoded(data).len() ==> is_url_safe(
                #[trigger] base64url_encoded(data)[i],
            ),
    decreases data.len(),
{
    if data.len() == 0 {
    } else if data.len() == 1 {
        lemma_digit_is_url_safe((data[0] as int) / 4);
        lemma_digit_is_url_safe(((data[0] as int) % 4) * 16);
    } else if data.len() == 2 {
        lemma_digit_is_url_safe((data[0] as int) / 4);
        lemma_digit_is_url_safe(((data[0] as int) % 4) * 16 + (data[1] as int) / 16);
        lemma_digit_is_url_safe(((data[1] as int) % 16) * 4);
    } else {
        lemma_digit_is_url_safe((data[0] as int) / 4);
        lemma_digit_is_url_safe(((data[0] as int) % 4) * 16 + (data[1] as int) / 16);
        lemma_digit_is_url_safe(((data[1] as int) % 16) * 4 + (data[2] as int) / 64);
        lemma_digit_is_url_safe((data[2] as int) % 64);
        lemma_base64url_is_url_safe(data.skip(3));
        let head = seq![
            base64url_digit((data[0] as int) / 4),
            base64url_digit(((data[0] as int) % 4) * 16 + (data[1] as int) / 16),
            base64url_digit(((data[1] as int) % 16) * 4 + (data[2] as int) / 64),
            base64url_digit((data[2] as int) % 64),
        ];
        let tail = base64url_encoded(data.skip(3));
        assert forall|i: int| 0 <= i < base64url_encoded(data).len() implies is_url_safe(
            #[trigger] base64url_encoded(data)[i],
        ) by {
            if i >= 4 {
                assert((head + tail)[i] == tail[i - 4]);
            }
        }
    }
}

/// The bytes that `text` stands for as URL-safe base64 without padding, if
/// it is such a text.
pub uninterp spec fn base64url_decoded(text: Seq<char>) -> Option<Seq<u8>>;

/// Encodes with `base64_url::encode`.
///
/// Trusted: the text is the base64 of the bytes in the URL-safe alphabet,
/// without padding, and decoding it gives the bytes back.
#[verifier::external_body]
pub(crate) fn base64url_encode(data: &[u8]) -> (text: String)
    ensures
        text@ == base64url_encoded(data@),
        base64url_decoded(text@) == Some(data@),
{
    base64_url::encode(data)
}

/// Decodes with `base64_url::decode`.
///
/// Trusted: whether the call succeeds, and with which bytes, is a function
/// of the text.
#[verifier::external_body]
pub(crate) fn base64url_decode(text: &str) -> (data: Option<Vec<u8>>)
    ensures
        match data {
            Some(bytes) => base64url_decoded(text@) == Some(bytes@),
            None => base64url_decoded(text@) is None,
        },
{
    base64_url::decode(text).ok()
}

/// Whether a byte stands for itself in a percent-encoded text: the ASCII
/// letters and digits, and `-`, `.`, `_`, `~`.
pub open spec fn is_unreserved(byte: u8) -> bool {
    (0x30 <= byte <= 0x39) || (0x41 <= byte <= 0x5A) || (0x61 <= byte <= 0x7A) || byte == 0x2D
        || byte == 0x2E || byte == 0x5F || byte == 0x7E
}

/// The upper-case hexadecimal digit for a value below sixteen.
pub open spec fn hex_digit(value: u8) -> char {
    if value < 10 {
        (0x30 + value) as char
    } else {
        (0x41 + value - 10) as char
    }
}

/// One byte, percent-encoded: itself when it is unreserved, else `%` and its
/// two hexadecimal digits.
pub open spec fn percent_encoded_byte(byte: u8) -> Seq<char> {
    if is_unreserved(byte) {
        seq![byte as char]
    } else {
        seq!['%', hex_digit(byte / 16), hex_digit(byte % 16)]
    }
}

/// The bytes, percent-encoded one after another.
pub open spec fn percent_encoded_bytes(bytes: Seq<u8>) -> Seq<char>
    decreases bytes.len(),
{
    if bytes.len() == 0 {
        Seq::empty()
    } else {
        percent_encoded_bytes(bytes.drop_last()) + percent_encoded_byte(bytes.last())
    }
}

/// `text` with every byte of its UTF-8 form percent-encoded.
pub open spec fn percent_encoded(text: Seq<char>) -> Seq<char> {
    percent_encoded_bytes(encode_utf8(text))
}

/// Unreserved bytes stand for themselves.
pub proof fn lemma_unreserved_bytes_are_kept(bytes: Seq<u8>)
    requires
        forall|i: int| 0 <= i < bytes.len() ==> is_unreserved(#[trigger] bytes[i]),
    ensures
        percent_encoded_bytes(bytes) == Seq::new(bytes.len(), |i: int| bytes[i] as char),
    decreases bytes.len(),
{
    if bytes.len() > 0 {
        let rest = bytes.drop_last();
        assert forall|i: int| 0 <= i < rest.len() implies is_unreserved(#[trigger] rest[i]) by {
            assert(rest[i] == bytes[i]);
        }
        lemma_unreserved_bytes_are_kept(rest);
        assert(is_unreserved(bytes.last()));
        assert(percent_encoded_bytes(bytes) =~= Seq::new(bytes.len(), |i: int| bytes[i] as char));
    } else {
        assert(percent_encoded_bytes(bytes) =~= Seq::new(bytes.len(), |i: int| bytes[i] as char));
    }
}

/// A character of the URL-safe base64 alphabet is ASCII, and its byte is
/// unreserved.
pub proof fn lemma_url_safe_is_unreserved(c: char)
    requires
        is_url_safe(c),
    ensures
        '\0' <= c <= '\u{7f}',
        is_unreserved(c as u8),
        (c as u8) as char == c,
{
}

/// A text in the URL-safe base64 alphabet is its own percent-encoding: it
/// can stand in a URL path as it is.
pub proof fn lemma_url_safe_text_is_kept(text: Seq<char>)
    requires
        forall|i: int| 0 <= i < text.len() ==> is_url_safe(#[trigger] text[i]),
    ensures
        percent_encoded(text) == text,
{
    assert forall|i: int| 0 <= i < text.len() implies '\0' <= #[trigger] text[i] <= '\u{7f}' by {
        lemma_url_safe_is_unreserved(text[i]);
    }
    assert(is_ascii_chars(text));
    is_ascii_chars_encode_utf8(text);
    let bytes = encode_utf8(text);
    assert forall|i: int| 0 <= i < bytes.len() implies is_unreserved(#[trigger] bytes[i])
        && bytes[i] as char == text[i] by {
        lemma_url_safe_is_unreserved(text[i]);
        assert(bytes[i] == text[i] as u8);
    }
    lemma_unreserved_bytes_are_kept(bytes);
    assert(percent_encoded(text) =~= text);
}

/// `text` with its percent escapes resolved, if the result is UTF-8.
pub uninterp spec fn percent_decoded(text: Seq<char>) -> Option<Seq<char>>;

/// Encodes with `urlencoding::encode`.
///
/// Trusted: the encoder writes every byte of the text that is not an ASCII
/// letter or digit or one of `-`, `.`, `_`, `~` as `%` and two upper-case
/// hexadecimal digits, and leaves the others as they are; and decoding the
/// result gives the text back, since `%` itself is escaped.
#[verifier::external_body]
pub(crate) fn percent_encode(text: &str) -> (encoded: String)
    ensures
        encoded@ == percent_encoded(text@),
        percent_decoded(encoded@) == Some(text@),
{
    urlencoding::encode(text).into_owned()
}

/// Decodes with `urlencoding::decode`.
///
/// Trusted: whether the call succeeds, and with which text, is a function
/// of the input.
#[verifier::external_body]
pub(crate) fn percent_decode(text: &str) -> (decoded: Option<String>)
    ensures
        match decoded {
            Some(plain) => percent_decoded(text@) == Some(plain@),
            None => percent_decoded(text@) is None,
        },
{
    match urlencoding::decode(text) {
        Ok(plain) => Some(plain.into_owned()),
        Err(_) => None,
    }
}

} // verus!

