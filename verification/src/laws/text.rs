//! Text.

use vstd::prelude::*;

use crate::text::{
    decimal, decimal_text, endpoint, is_white_space, join, join3, same_text, signed_decimal,
    signed_decimal_text, trim, trim_back, trim_front, trimmed, without_trailing_slashes,
};

verus! {

/// A number below ten is its digit. A greater one is its tenth part followed by the digit of
/// what is left.
pub proof fn decimal_digits_are_in_place(n: nat)
    ensures
        n < 10 ==> decimal(n).len() == 1 && decimal(n)[0] as int == 48 + n,
        n >= 10 ==> decimal(n).len() == decimal(n / 10).len() + 1 && decimal(n).drop_last()
            == decimal(n / 10) && decimal(n).last() as int == 48 + n % 10,
{
}

/// Two calls: the text of a number of several digits is that of its tenth part and one digit.
pub proof fn decimal_text_grows_by_a_digit(n: u128, tenth: String, text: String)
    requires
        n >= 10,
        call_ensures(decimal_text, (n,), text),
        call_ensures(decimal_text, ((n / 10) as u128,), tenth),
    ensures
        text@.len() == tenth@.len() + 1,
        text@.drop_last() == tenth@,
        text@.last() as int == 48 + n % 10,
{
    decimal_digits_are_in_place(n as nat);
}

/// A single digit is written as itself.
pub proof fn decimal_text_of_a_digit(n: u128, text: String)
    requires
        n < 10,
        call_ensures(decimal_text, (n,), text),
    ensures
        text@.len() == 1,
        text@[0] as int == 48 + n,
{
    decimal_digits_are_in_place(n as nat);
}

/// A number below zero is a minus sign and its size, any other one its size alone.
pub proof fn signed_text_is_sign_and_size(n: i64, size: u128, signed: String, unsigned: String)
    requires
        size == if n < 0 {
            -n as int
        } else {
            n as int
        },
        call_ensures(signed_decimal_text, (n,), signed),
        call_ensures(decimal_text, (size,), unsigned),
    ensures
        n < 0 ==> signed@ == seq!['-'] + unsigned@,
        n >= 0 ==> signed@ == unsigned@,
{
}

/// A signed number in decimal is its size, behind a minus sign where it is below zero.
pub proof fn signed_decimal_is_sign_and_size(n: int)
    ensures
        n < 0 ==> signed_decimal(n) == seq!['-'] + decimal((-n) as nat),
        n >= 0 ==> signed_decimal(n) == decimal(n as nat),
{
}

/// Pieces are joined in their order.
pub proof fn pieces_are_joined_in_order(
    first: &str,
    second: &str,
    third: &str,
    two: String,
    three: String,
)
    requires
        call_ensures(join, (first, second), two),
        call_ensures(join3, (first, second, third), three),
    ensures
        two@ == first@ + second@,
        three@ == first@ + second@ + third@,
{
}

/// Text is the same exactly when its characters are.
pub proof fn same_text_has_the_same_characters(first: &str, second: &str, same: bool)
    requires
        call_ensures(same_text, (first, second), same),
    ensures
        same <==> first@ == second@,
{
}

/// White space is the tab, the line ends, the blank and the other characters with the Unicode
/// property of that name.
pub proof fn white_space_is_as_in_unicode(c: char)
    ensures
        is_white_space(c) <==> {
            let n = c as int;
            9 <= n <= 13 || n == 32 || n == 133 || n == 160 || n == 5760 || 8192 <= n <= 8202 || n
                == 8232 || n == 8233 || n == 8239 || n == 8287 || n == 12288
        },
{
}

proof fn lemma_trim_front_cuts(text: Seq<char>) -> (start: int)
    ensures
        0 <= start <= text.len(),
        trim_front(text) == text.skip(start),
        forall|i: int| 0 <= i < start ==> is_white_space(#[trigger] text[i]),
        start < text.len() ==> !is_white_space(text[start]),
    decreases text.len(),
{
    if text.len() > 0 && is_white_space(text[0]) {
        let rest = text.skip(1);
        let start = lemma_trim_front_cuts(rest);
        assert(rest.skip(start) =~= text.skip(start + 1));
        assert forall|i: int| 0 <= i < start + 1 implies is_white_space(#[trigger] text[i]) by {
            if i > 0 {
                assert(rest[i - 1] == text[i]);
            }
        }
        if start < rest.len() {
            assert(rest[start] == text[start + 1]);
        }
        start + 1
    } else {
        assert(text.skip(0) =~= text);
        0
    }
}

proof fn lemma_trim_back_cuts(text: Seq<char>) -> (end: int)
    ensures
        0 <= end <= text.len(),
        trim_back(text) == text.take(end),
        forall|i: int| end <= i < text.len() ==> is_white_space(#[trigger] text[i]),
        end > 0 ==> !is_white_space(text[end - 1]),
    decreases text.len(),
{
    if text.len() > 0 && is_white_space(text.last()) {
        let rest = text.drop_last();
        let end = lemma_trim_back_cuts(rest);
        assert(rest.take(end) =~= text.take(end));
        assert forall|i: int| end <= i < text.len() implies is_white_space(#[trigger] text[i]) by {
            if i < rest.len() {
                assert(rest[i] == text[i]);
            }
        }
        end
    } else {
        assert(text.take(text.len() as int) =~= text);
        text.len() as int
    }
}

/// Trimming leaves a piece out of the middle: nothing but white space was in front of it and
/// behind it, and it neither starts nor ends with white space.
pub proof fn trimming_removes_the_white_space_around(text: Seq<char>)
    ensures
        exists|start: int, end: int|
            0 <= start <= end <= text.len() && trimmed(text) == #[trigger] text.subrange(start, end)
                && (forall|i: int|
                (0 <= i < start || end <= i < text.len()) ==> is_white_space(#[trigger] text[i])),
        trimmed(text).len() > 0 ==> !is_white_space(trimmed(text)[0]) && !is_white_space(
            trimmed(text).last(),
        ),
{
    let start = lemma_trim_front_cuts(text);
    let front = text.skip(start);
    let length = lemma_trim_back_cuts(front);
    let end = start + length;
    assert(front.take(length) =~= text.subrange(start, end));
    assert forall|i: int| (0 <= i < start || end <= i < text.len()) implies is_white_space(
        #[trigger] text[i],
    ) by {
        if i >= end {
            assert(front[i - start] == text[i]);
        }
    }
    if length > 0 {
        assert(front[0] == text[start]);
        assert(trimmed(text)[0] == text[start]);
        assert(trimmed(text).last() == front[length - 1]);
    }
}

/// The same of a call.
pub proof fn trim_removes_the_white_space_around(text: &str, inner: &str)
    requires
        call_ensures(trim, (text,), inner),
    ensures
        exists|start: int, end: int|
            0 <= start <= end <= text@.len() && inner@ == #[trigger] text@.subrange(start, end) && (
            forall|i: int|
                (0 <= i < start || end <= i < text@.len()) ==> is_white_space(#[trigger] text@[i])),
        inner@.len() > 0 ==> !is_white_space(inner@[0]) && !is_white_space(inner@.last()),
{
    trimming_removes_the_white_space_around(text@);
}

proof fn lemma_slashes_cut(base: Seq<char>) -> (end: int)
    ensures
        0 <= end <= base.len(),
        without_trailing_slashes(base) == base.take(end),
        forall|i: int| end <= i < base.len() ==> #[trigger] base[i] == '/',
        end > 0 ==> base[end - 1] != '/',
    decreases base.len(),
{
    if base.len() > 0 && base.last() == '/' {
        let rest = base.drop_last();
        let end = lemma_slashes_cut(rest);
        assert(rest.take(end) =~= base.take(end));
        assert forall|i: int| end <= i < base.len() implies #[trigger] base[i] == '/' by {
            if i < rest.len() {
                assert(rest[i] == base[i]);
            }
        }
        end
    } else {
        assert(base.take(base.len() as int) =~= base);
        base.len() as int
    }
}

/// An address is the base without the slashes that it ends with, and the path.
pub proof fn address_is_base_and_path(base: &str, path: &str, address: String)
    requires
        call_ensures(endpoint, (base, path), address),
    ensures
        exists|end: int|
            0 <= end <= base@.len() && address@ == #[trigger] base@.take(end) + path@ && (
            forall|i: int| end <= i < base@.len() ==> #[trigger] base@[i] == '/') && (end > 0
                ==> base@[end - 1] != '/'),
{
    let end = lemma_slashes_cut(base@);
    assert(address@ == base@.take(end) + path@);
}

/// What is left of a base is a piece from its start, and only slashes were cut off.
pub proof fn only_slashes_are_cut_off(base: Seq<char>)
    ensures
        exists|end: int|
            0 <= end <= base.len() && without_trailing_slashes(base) == #[trigger] base.take(end)
                && (forall|i: int| end <= i < base.len() ==> #[trigger] base[i] == '/') && (end > 0
                ==> base[end - 1] != '/'),
{
    let end = lemma_slashes_cut(base);
    assert(without_trailing_slashes(base) == base.take(end));
}

} // verus!
