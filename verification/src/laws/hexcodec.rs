//! Hexadecimal text.

use vstd::prelude::*;

use crate::hexcodec::{hex_bytes, hex_read_back, hex_text, is_hex};

verus! {

/// Text is hexadecimal exactly when it has an even number of characters and each is a digit, one
/// of the letters from `a` to `f`, or one of the letters from `A` to `F`.
pub proof fn hexadecimal_text_is_pairs_of_digits(text: Seq<char>)
    ensures
        is_hex(text) <==> text.len() % 2 == 0 && forall|i: int|
            0 <= i < text.len() ==> {
                ||| 48 <= (#[trigger] text[i]) as int <= 57
                ||| 97 <= text[i] as int <= 102
                ||| 65 <= text[i] as int <= 70
            },
{
}

/// The digits stand for zero to nine, and the letters of either case for ten to fifteen. The
/// first character of a pair counts sixteen times.
pub proof fn pairs_stand_for_bytes(text: Seq<char>, i: int, high: int, low: int)
    requires
        is_hex(text),
        0 <= i < text.len() / 2,
        0 <= high < 16,
        0 <= low < 16,
        text[2 * i] as int == if high < 10 {
            48 + high
        } else {
            87 + high
        } || high >= 10 && text[2 * i] as int == 55 + high,
        text[2 * i + 1] as int == if low < 10 {
            48 + low
        } else {
            87 + low
        } || low >= 10 && text[2 * i + 1] as int == 55 + low,
    ensures
        hex_bytes(text).len() == text.len() / 2,
        hex_bytes(text)[i] == 16 * high + low,
{
}

/// Bytes are written as two characters each, in lower case, and are read back.
pub proof fn bytes_are_written_in_lower_case(bytes: Seq<u8>, i: int)
    requires
        0 <= i < bytes.len(),
    ensures
        hex_text(bytes).len() == 2 * bytes.len(),
        is_hex(hex_text(bytes)),
        hex_bytes(hex_text(bytes)) == bytes,
        hex_text(bytes)[2 * i] as int == if bytes[i] as int / 16 < 10 {
            48 + bytes[i] as int / 16
        } else {
            87 + bytes[i] as int / 16
        },
        hex_text(bytes)[2 * i + 1] as int == if bytes[i] as int % 16 < 10 {
            48 + bytes[i] as int % 16
        } else {
            87 + bytes[i] as int % 16
        },
{
    hex_read_back(bytes);
    assert((2 * i) / 2 == i && (2 * i + 1) / 2 == i);
    assert((2 * i) % 2 == 0 && (2 * i + 1) % 2 == 1);
}

} // verus!
