//! Small operations on text: decimal numbers, surrounding white space, and addresses.

use vstd::prelude::*;
use vstd::string::*;

verus! {

/// A decimal digit.
pub open spec fn digit(d: nat) -> char {
    if d == 0 {
        '0'
    } else if d == 1 {
        '1'
    } else if d == 2 {
        '2'
    } else if d == 3 {
        '3'
    } else if d == 4 {
        '4'
    } else if d == 5 {
        '5'
    } else if d == 6 {
        '6'
    } else if d == 7 {
        '7'
    } else if d == 8 {
        '8'
    } else {
        '9'
    }
}

/// A number in decimal, without leading zeros.
pub open spec fn decimal(n: nat) -> Seq<char>
    decreases n,
{
    if n < 10 {
        seq![digit(n)]
    } else {
        decimal(n / 10).push(digit(n % 10))
    }
}

/// A signed number in decimal.
pub open spec fn signed_decimal(n: int) -> Seq<char> {
    if n < 0 {
        seq!['-'] + decimal((-n) as nat)
    } else {
        decimal(n as nat)
    }
}

/// The characters with the Unicode property `White_Space`.
pub open spec fn is_white_space(c: char) -> bool {
    ||| 0x9 <= c as u32 <= 0xd
    ||| c as u32 == 0x20
    ||| c as u32 == 0x85
    ||| c as u32 == 0xa0
    ||| c as u32 == 0x1680
    ||| 0x2000 <= c as u32 <= 0x200a
    ||| c as u32 == 0x2028
    ||| c as u32 == 0x2029
    ||| c as u32 == 0x202f
    ||| c as u32 == 0x205f
    ||| c as u32 == 0x3000
}

/// Text without the white space that it starts with.
pub open spec fn trim_front(text: Seq<char>) -> Seq<char>
    decreases text.len(),
{
    if text.len() > 0 && is_white_space(text[0]) {
        trim_front(text.skip(1))
    } else {
        text
    }
}

/// Text without the white space that it ends with.
pub open spec fn trim_back(text: Seq<char>) -> Seq<char>
    decreases text.len(),
{
    if text.len() > 0 && is_white_space(text.last()) {
        trim_back(text.drop_last())
    } else {
        text
    }
}

/// Text without the white space around it.
pub open spec fn trimmed(text: Seq<char>) -> Seq<char> {
    trim_back(trim_front(text))
}

/// Text without the slashes that it ends with.
pub open spec fn without_trailing_slashes(text: Seq<char>) -> Seq<char>
    decreases text.len(),
{
    if text.len() > 0 && text.last() == '/' {
        without_trailing_slashes(text.drop_last())
    } else {
        text
    }
}

fn digit_text(d: u128) -> (text: &'static str)
    requires
        d < 10,
    ensures
        text@ == seq![digit(d as nat)],
{
    proof {
        reveal_strlit("0");
        reveal_strlit("1");
        reveal_strlit("2");
        reveal_strlit("3");
        reveal_strlit("4");
        reveal_strlit("5");
        reveal_strlit("6");
        reveal_strlit("7");
        reveal_strlit("8");
        reveal_strlit("9");
    }
    if d == 0 {
        "0"
    } else if d == 1 {
        "1"
    } else if d == 2 {
        "2"
    } else if d == 3 {
        "3"
    } else if d == 4 {
        "4"
    } else if d == 5 {
        "5"
    } else if d == 6 {
        "6"
    } else if d == 7 {
        "7"
    } else if d == 8 {
        "8"
    } else {
        "9"
    }
}

/// Writes a number in decimal.
pub fn decimal_text(n: u128) -> (text: String)
    ensures
        text@ == decimal(n as nat),
    decreases n,
{
    if n < 10 {
        digit_text(n).to_owned()
    } else {
        let mut text = decimal_text(n / 10);
        text.append(digit_text(n % 10));
        proof {
            assert(text@ =~= decimal((n / 10) as nat).push(digit((n % 10) as nat)));
        }
        text
    }
}

/// Writes a signed number in decimal.
pub fn signed_decimal_text(n: i64) -> (text: String)
    ensures
        text@ == signed_decimal(n as int),
{
    if n < 0 {
        let mut text = "-".to_owned();
        let size: u128 = (-(n as i128)) as u128;
        text.append(decimal_text(size).as_str());
        proof {
            reveal_strlit("-");
        }
        text
    } else {
        decimal_text(n as u128)
    }
}

/// Joins two pieces of text.
pub fn join(first: &str, second: &str) -> (text: String)
    ensures
        text@ == first@ + second@,
{
    let mut text = first.to_owned();
    text.append(second);
    text
}

/// Joins three pieces of text.
pub fn join3(first: &str, second: &str, third: &str) -> (text: String)
    ensures
        text@ == first@ + second@ + third@,
{
    let mut text = first.to_owned();
    text.append(second);
    text.append(third);
    text
}

/// Tells whether two pieces of text are the same.
pub fn same_text(first: &str, second: &str) -> (same: bool)
    ensures
        same == (first@ == second@),
{
    first.to_owned() == second.to_owned()
}

fn white_space(c: char) -> (is: bool)
    ensures
        is == is_white_space(c),
{
    let code: u32 = c as u32;
    (0x9 <= code && code <= 0xd) || code == 0x20 || code == 0x85 || code == 0xa0 || code == 0x1680
        || (0x2000 <= code && code <= 0x200a) || code == 0x2028 || code == 0x2029 || code == 0x202f
        || code == 0x205f || code == 0x3000
}

/// Removes the white space around a piece of text.
pub fn trim(text: &str) -> (inner: &str)
    ensures
        inner@ == trimmed(text@),
{
    let mut end: usize = text.unicode_len();
    let mut start: usize = 0;
    let ghost all = text@;
    proof {
        assert(all.skip(0) =~= all);
    }
    while start < end && white_space(text.get_char(start))
        invariant
            start <= end == all.len(),
            all == text@,
            trim_front(all) == trim_front(all.skip(start as int)),
        decreases end - start,
    {
        proof {
            assert(all.skip(start as int).skip(1) =~= all.skip(start + 1));
        }
        start = start + 1;
    }
    let ghost front = all.skip(start as int);
    proof {
        assert(trim_front(all) == front);
        assert(all.subrange(start as int, end as int) =~= front);
    }
    while start < end && white_space(text.get_char(end - 1))
        invariant
            start <= end <= all.len(),
            all == text@,
            front == trim_front(all),
            trim_back(front) == trim_back(all.subrange(start as int, end as int)),
        decreases end,
    {
        proof {
            let shorter = all.subrange(start as int, end - 1);
            assert(all.subrange(start as int, end as int).drop_last() =~= shorter);
        }
        end = end - 1;
    }
    proof {
        let inner = all.subrange(start as int, end as int);
        assert(trim_back(inner) == inner);
    }
    text.substring_char(start, end)
}

/// Builds the address of `path` on the server at `base`, whose trailing slashes do not count.
pub fn endpoint(base: &str, path: &str) -> (address: String)
    ensures
        address@ == without_trailing_slashes(base@) + path@,
{
    let mut end: usize = base.unicode_len();
    let ghost all = base@;
    proof {
        assert(all.subrange(0, end as int) =~= all);
    }
    while end > 0 && base.get_char(end - 1) == '/'
        invariant
            end <= all.len(),
            all == base@,
            without_trailing_slashes(all) == without_trailing_slashes(all.subrange(0, end as int)),
        decreases end,
    {
        proof {
            assert(all.subrange(0, end as int).drop_last() =~= all.subrange(0, end - 1));
        }
        end = end - 1;
    }
    proof {
        let kept = all.subrange(0, end as int);
        assert(without_trailing_slashes(kept) == kept);
    }
    join(base.substring_char(0, end), path)
}

/// The end of a line is all that is trimmed of a line with no white space around it.
pub proof fn lemma_trim_line(text: Seq<char>)
    requires
        text.len() > 0,
        !is_white_space(text[0]),
        !is_white_space(text.last()),
    ensures
        trimmed(text.push('\n')) == text,
{
    let line = text.push('\n');
    assert(line[0] == text[0]);
    assert(trim_front(line) == line);
    assert(is_white_space(line.last()));
    assert(line.drop_last() =~= text);
    assert(trim_back(text) == text);
    assert(trim_back(line) == trim_back(line.drop_last()));
}

/// What stands in front of the first mark of a sequence, and what follows it, are determined by
/// the sequence.
pub proof fn lemma_split_at_first<T>(
    front1: Seq<T>,
    back1: Seq<T>,
    front2: Seq<T>,
    back2: Seq<T>,
    mark: T,
)
    requires
        !front1.contains(mark),
        !front2.contains(mark),
        front1 + seq![mark] + back1 == front2 + seq![mark] + back2,
    ensures
        front1 == front2,
        back1 == back2,
{
    let all1 = front1 + seq![mark] + back1;
    let all2 = front2 + seq![mark] + back2;
    assert(all1[front1.len() as int] == mark);
    assert(all2[front2.len() as int] == mark);
    if front1.len() < front2.len() {
        assert(all2[front1.len() as int] == front2[front1.len() as int]);
    } else if front2.len() < front1.len() {
        assert(all1[front2.len() as int] == front1[front2.len() as int]);
    }
    assert(all1.take(front1.len() as int) =~= front1);
    assert(all2.take(front2.len() as int) =~= front2);
    assert(all1.skip((front1.len() + 1) as int) =~= back1);
    assert(all2.skip((front2.len() + 1) as int) =~= back2);
}

/// Slashes behind the server's address make no difference.
pub proof fn trailing_slash_is_ignored(base: Seq<char>)
    ensures
        without_trailing_slashes(base.push('/')) == without_trailing_slashes(base),
{
    assert(base.push('/').drop_last() =~= base);
}

/// What is left of an address neither ends in a slash nor loses anything more.
pub proof fn stripped_address_is_stable(base: Seq<char>)
    ensures
        without_trailing_slashes(base).len() > 0 ==> without_trailing_slashes(base).last() != '/',
        without_trailing_slashes(without_trailing_slashes(base)) == without_trailing_slashes(base),
    decreases base.len(),
{
    if base.len() > 0 && base.last() == '/' {
        stripped_address_is_stable(base.drop_last());
    }
}

} // verus!
