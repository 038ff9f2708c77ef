//! Percent-decoding of request paths.

use vstd::prelude::*;
use vstd::string::*;
use vstd::utf8::*;
use percent_encoding::percent_decode;

verus! {

/// The value of `byte` read as a hexadecimal digit in ASCII, of either case.
pub open spec fn hex_digit(byte: u8) -> Option<u8> {
    if 0x30 <= byte <= 0x39 {
        Some((byte - 0x30) as u8)
    } else if 0x41 <= byte <= 0x46 {
        Some((byte - 0x41 + 10) as u8)
    } else if 0x61 <= byte <= 0x66 {
        Some((byte - 0x61 + 10) as u8)
    } else {
        None
    }
}

/// Whether `bytes` starts with an escape: a percent sign and two hexadecimal
/// digits.
pub open spec fn starts_with_escape(bytes: Seq<u8>) -> bool {
    bytes.len() >= 3 && bytes[0] == 0x25 && hex_digit(bytes[1]) is Some && hex_digit(
        bytes[2],
    ) is Some
}

/// `bytes` with every escape replaced by the byte it stands for, read from
/// left to right. A percent sign that starts no escape stays as it is.
pub open spec fn percent_decoded(bytes: Seq<u8>) -> Seq<u8>
    decreases bytes.len(),
{
    if bytes.len() == 0 {
        bytes
    } else if starts_with_escape(bytes) {
        seq![(hex_digit(bytes[1])->0 * 16 + hex_digit(bytes[2])->0) as u8] + percent_decoded(
            bytes.skip(3),
        )
    } else {
        seq![bytes[0]] + percent_decoded(bytes.skip(1))
    }
}

/// The text that `path` stands for once its escapes are decoded, if the
/// decoded bytes are UTF-8.
pub open spec fn decoded_path(path: Seq<char>) -> Option<Seq<char>> {
    let bytes = percent_decoded(encode_utf8(path));
    if valid_utf8(bytes) {
        Some(decode_utf8(bytes))
    } else {
        None
    }
}

/// Decoding never makes the bytes longer.
pub proof fn lemma_decoded_no_longer(bytes: Seq<u8>)
    ensures
        percent_decoded(bytes).len() <= bytes.len(),
    decreases bytes.len(),
{
    if bytes.len() == 0 {
    } else if starts_with_escape(bytes) {
        lemma_decoded_no_longer(bytes.skip(3));
    } else {
        lemma_decoded_no_longer(bytes.skip(1));
    }
}

/// Whether no byte of `bytes` is the percent sign.
pub open spec fn free_of_percent(bytes: Seq<u8>) -> bool {
    forall|i: int| 0 <= i < bytes.len() ==> #[trigger] bytes[i] != 0x25
}

/// Bytes without a percent sign decode to themselves.
pub proof fn lemma_plain_bytes_unchanged(bytes: Seq<u8>)
    requires
        free_of_percent(bytes),
    ensures
        percent_decoded(bytes) == bytes,
    decreases bytes.len(),
{
    if bytes.len() > 0 {
        let rest = bytes.skip(1);
        assert(bytes[0] != 0x25);
        assert forall|i: int| 0 <= i < rest.len() implies #[trigger] rest[i] != 0x25 by {
            assert(rest[i] == bytes[i + 1]);
        }
        lemma_plain_bytes_unchanged(rest);
        assert(seq![bytes[0]] + rest =~= bytes);
    }
}

/// The encoding of one character holds the byte of the percent sign only if
/// the character is the percent sign.
proof fn lemma_scalar_bytes(c: char)
    requires
        c != '%',
    ensures
        free_of_percent(encode_scalar(c as u32)),
{
    let s = c as u32;
    assert(s != 0x25);
    assert(has_width_1_encoding(s) ==> leading_byte_width_1(s) != 0x25) by (bit_vector)
        requires
            s != 0x25,
    ;
    assert(leading_byte_width_2(s) != 0x25 && leading_byte_width_3(s) != 0x25
        && leading_byte_width_4(s) != 0x25 && last_continuation_byte(s) != 0x25
        && second_last_continuation_byte(s) != 0x25 && third_last_continuation_byte(s) != 0x25)
        by (bit_vector);
}

/// The encoding of a text without a percent sign holds no byte of one.
proof fn lemma_text_bytes(text: Seq<char>)
    requires
        !text.contains('%'),
    ensures
        free_of_percent(encode_utf8(text)),
    decreases text.len(),
{
    if text.len() > 0 {
        let rest = text.drop_first();
        assert(text[0] != '%');
        assert forall|j: int| 0 <= j < rest.len() implies rest[j] != '%' by {
            assert(rest[j] == text[j + 1]);
        }
        lemma_scalar_bytes(text[0]);
        lemma_text_bytes(rest);
        let head = encode_scalar(text[0] as u32);
        let tail = encode_utf8(rest);
        assert forall|i: int| 0 <= i < (head + tail).len() implies #[trigger] (head + tail)[i]
            != 0x25 by {
            if i < head.len() {
                assert((head + tail)[i] == head[i]);
            } else {
                assert((head + tail)[i] == tail[i - head.len()]);
            }
        }
    }
}

/// A path without a percent sign decodes to itself.
pub proof fn lemma_plain_path_unchanged(path: Seq<char>)
    requires
        !path.contains('%'),
    ensures
        decoded_path(path) == Some(path),
{
    lemma_text_bytes(path);
    lemma_plain_bytes_unchanged(encode_utf8(path));
    encode_utf8_valid_utf8(path);
    encode_utf8_decode_utf8(path);
}

/// Calls `percent_encoding::percent_decode` on the bytes of `path` and
/// `PercentDecode::decode_utf8` on what it gives.
///
/// Trusted: that the decoder replaces each percent sign followed by two
/// hexadecimal digits by the byte they spell and keeps every other byte, and
/// that it yields a text exactly when the decoded bytes are UTF-8, namely the
/// text that those bytes encode.
#[verifier::external_body]
pub(crate) fn percent_decode_utf8(path: &str) -> (decoded: Option<String>)
    ensures
        decoded is Some <==> valid_utf8(percent_decoded(path.spec_bytes())),
        decoded matches Some(text) ==> text@ == decode_utf8(percent_decoded(path.spec_bytes())),
{
    match percent_decode(path.as_bytes()).decode_utf8() {
        Ok(text) => Some(text.into_owned()),
        Err(_) => None,
    }
}

} // verus!
