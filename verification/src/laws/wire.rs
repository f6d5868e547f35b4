//! Serialized payout vectors.

use vstd::prelude::*;

use crate::encoding::{cuts_outputs, vector_is_cut_into_outputs};
use crate::wire::{
    compact_size_at, le_value, output_end, outputs_end, parse_tx_output_vector, read_compact_size,
    read_le, WireError,
};

verus! {

/// A read ends behind its bytes. It fails where its end is beyond every offset, or beyond the
/// data, and only there.
pub proof fn little_endian_reads_end_behind_their_bytes(
    data: &[u8],
    offset: usize,
    width: usize,
    read: Result<(u64, usize), WireError>,
)
    requires
        call_ensures(read_le, (data, offset, width), read),
    ensures
        offset + width > usize::MAX ==> read == Err::<(u64, usize), WireError>(
            WireError::CompactSizeOverflow,
        ),
        data@.len() < offset + width <= usize::MAX ==> read == Err::<(u64, usize), WireError>(
            WireError::TruncatedCompactSize,
        ),
        offset + width <= usize::MAX && offset + width <= data@.len() ==> read is Ok
            && read->Ok_0.1 == offset + width,
        width == 0 && offset <= data@.len() ==> read == Ok::<(u64, usize), WireError>((0, offset)),
{
}

/// Two reads: the first byte of a longer read counts once, and what follows counts 256 times.
pub proof fn little_endian_reads_put_the_first_byte_last(
    data: &[u8],
    offset: usize,
    width: usize,
    read: Result<(u64, usize), WireError>,
    rest: Result<(u64, usize), WireError>,
)
    requires
        0 < width,
        offset + width <= data@.len(),
        offset < usize::MAX,
        call_ensures(read_le, (data, offset, width), read),
        call_ensures(read_le, (data, (offset + 1) as usize, (width - 1) as usize), rest),
    ensures
        offset + width <= usize::MAX ==> read is Ok && rest is Ok && read->Ok_0.0
            == data@[offset as int] + 256 * rest->Ok_0.0,
{
    let bytes = data@.subrange(offset as int, offset + width);
    assert(bytes.skip(1) =~= data@.subrange(offset + 1, offset + width));
}

/// What a compact size is, byte by byte: up to `0xfc` the byte itself, and behind `0xfd`, `0xfe`
/// and `0xff` two, four and eight bytes of which the first counts least.
pub proof fn compact_sizes_byte_by_byte(data: Seq<u8>, at: int)
    requires
        0 <= at,
        data.len() <= usize::MAX,
    ensures
        at >= data.len() ==> compact_size_at(data, at) == Err::<(nat, int), WireError>(
            WireError::MissingCompactSize,
        ),
        at < data.len() && data[at] <= 0xfc ==> compact_size_at(data, at) == Ok::<
            (nat, int),
            WireError,
        >((data[at] as nat, at + 1)),
        at + 3 <= data.len() && data[at] == 0xfd ==> compact_size_at(data, at) == Ok::<
            (nat, int),
            WireError,
        >(((data[at + 1] + 0x100 * data[at + 2]) as nat, at + 3)),
        at + 5 <= data.len() && data[at] == 0xfe ==> compact_size_at(data, at) == Ok::<
            (nat, int),
            WireError,
        >(
            (
                (data[at + 1] + 0x100 * data[at + 2] + 0x1_0000 * data[at + 3] + 0x100_0000 * data[at
                    + 4]) as nat,
                at + 5,
            ),
        ),
        at + 9 <= data.len() && data[at] == 0xff ==> compact_size_at(data, at) == Ok::<
            (nat, int),
            WireError,
        >(
            (
                (data[at + 1] + 0x100 * data[at + 2] + 0x1_0000 * data[at + 3] + 0x100_0000 * data[at
                    + 4] + 0x1_0000_0000 * data[at + 5] + 0x100_0000_0000 * data[at + 6]
                    + 0x1_0000_0000_0000 * data[at + 7] + 0x100_0000_0000_0000 * data[at
                    + 8]) as nat,
                at + 9,
            ),
        ),
        at < data.len() && data.len() < at + (if data[at] == 0xfd {
            3int
        } else if data[at] == 0xfe {
            5
        } else if data[at] == 0xff {
            9
        } else {
            1
        }) ==> compact_size_at(data, at) is Err && (compact_size_at(data, at)->Err_0
            == WireError::TruncatedCompactSize || at + 9 > usize::MAX),
{
    if at < data.len() && data[at] > 0xfc {
        let width: int = if data[at] == 0xfd {
            2
        } else if data[at] == 0xfe {
            4
        } else {
            8
        };
        if at + 1 + width <= data.len() {
            lemma_le_bytes(data.subrange(at + 1, at + 1 + width));
        }
    }
}

proof fn lemma_le_bytes(b: Seq<u8>)
    ensures
        b.len() == 2 ==> le_value(b) == b[0] + 0x100 * b[1],
        b.len() == 4 ==> le_value(b) == b[0] + 0x100 * b[1] + 0x1_0000 * b[2] + 0x100_0000 * b[3],
        b.len() == 8 ==> le_value(b) == b[0] + 0x100 * b[1] + 0x1_0000 * b[2] + 0x100_0000 * b[3]
            + 0x1_0000_0000 * b[4] + 0x100_0000_0000 * b[5] + 0x1_0000_0000_0000 * b[6]
            + 0x100_0000_0000_0000 * b[7],
{
    reveal_with_fuel(le_value, 9);
    if b.len() >= 2 {
        assert(b.skip(1).skip(1) =~= b.skip(2));
    }
    if b.len() >= 4 {
        assert(b.skip(2).skip(1) =~= b.skip(3));
        assert(b.skip(3).skip(1) =~= b.skip(4));
    }
    if b.len() >= 8 {
        assert(b.skip(4).skip(1) =~= b.skip(5));
        assert(b.skip(5).skip(1) =~= b.skip(6));
        assert(b.skip(6).skip(1) =~= b.skip(7));
        assert(b.skip(7).skip(1) =~= b.skip(8));
    }
}

/// A call gives the compact size at the offset, and fails where there is none.
pub proof fn compact_sizes_are_read(
    data: &[u8],
    offset: usize,
    read: Result<(u64, usize), WireError>,
)
    requires
        call_ensures(read_compact_size, (data, offset), read),
    ensures
        read is Ok <==> compact_size_at(data@, offset as int) is Ok,
        read is Ok ==> read->Ok_0.0 == compact_size_at(data@, offset as int)->Ok_0.0
            && read->Ok_0.1 == compact_size_at(data@, offset as int)->Ok_0.1,
        read is Err ==> read->Err_0 == compact_size_at(data@, offset as int)->Err_0,
{
}

/// Outputs one behind the other: each starts with eight bytes, then comes the compact size of
/// its script, and the next one starts behind the script.
pub open spec fn follow_each_other(data: Seq<u8>, starts: Seq<int>) -> bool {
    &&& starts.len() > 0
    &&& compact_size_at(data, 0) is Ok
    &&& starts[0] == compact_size_at(data, 0)->Ok_0.1
    &&& forall|i: int|
        #![trigger starts[i]]
        0 <= i < starts.len() - 1 ==> {
            let script = compact_size_at(data, starts[i] + 8);
            &&& starts[i] + 8 <= data.len()
            &&& script is Ok
            &&& starts[i + 1] == script->Ok_0.1 + script->Ok_0.0
            &&& starts[i + 1] <= data.len()
        }
}

proof fn lemma_starts_of(data: Seq<u8>, offset: int, count: nat) -> (starts: Seq<int>)
    requires
        0 <= offset <= data.len() <= usize::MAX,
    ensures
        0 < starts.len() <= count + 1,
        starts[0] == offset,
        forall|i: int|
            #![trigger starts[i]]
            0 <= i < starts.len() ==> 0 <= starts[i] <= data.len(),
        forall|i: int|
            #![trigger starts[i]]
            0 <= i < starts.len() - 1 ==> output_end(data, starts[i]) == Ok::<int, WireError>(
                starts[i + 1],
            ),
        match outputs_end(data, offset, count) {
            Ok(end) => starts.len() == count + 1 && starts.last() == end,
            Err(e) => starts.len() <= count && output_end(data, starts.last()) == Err::<
                int,
                WireError,
            >(e),
        },
    decreases count,
{
    if count == 0 || output_end(data, offset) is Err {
        seq![offset]
    } else {
        let next = output_end(data, offset)->Ok_0;
        let rest = lemma_starts_of(data, next, (count - 1) as nat);
        let starts = seq![offset] + rest;
        assert forall|i: int| #![trigger starts[i]] 0 <= i < starts.len() implies 0 <= starts[i]
            <= data.len() by {
            if i > 0 {
                assert(rest[i - 1] == starts[i]);
            }
        }
        assert forall|i: int| #![trigger starts[i]] 0 <= i < starts.len() - 1 implies output_end(
            data,
            starts[i],
        ) == Ok::<int, WireError>(starts[i + 1]) by {
            assert(rest[i - 1 + 1] == starts[i + 1]);
            if i > 0 {
                assert(rest[i - 1] == starts[i]);
            }
        }
        assert(starts.last() == rest.last());
        starts
    }
}

/// A vector is counted exactly when it announces so many outputs, so many follow each other, and
/// the last one ends with the data.
pub proof fn vectors_are_counted_to_the_last_byte(
    data: &[u8],
    n: usize,
    count: Result<usize, WireError>,
)
    requires
        data@.len() <= usize::MAX,
        call_ensures(parse_tx_output_vector, (data,), count),
    ensures
        count == Ok::<usize, WireError>(n) <==> exists|starts: Seq<int>| #[trigger]
            follow_each_other(data@, starts) && compact_size_at(data@, 0)->Ok_0.0 == n
                && starts.len() == n + 1 && starts.last() == data@.len(),
{
    vector_is_cut_into_outputs(data@, n as nat);
    if count == Ok::<usize, WireError>(n) {
        let first = compact_size_at(data@, 0)->Ok_0.1;
        let starts = lemma_starts_of(data@, first, n as nat);
        assert(follow_each_other(data@, starts));
    }
    if exists|starts: Seq<int>| #[trigger]
        follow_each_other(data@, starts) && compact_size_at(data@, 0)->Ok_0.0 == n && starts.len()
            == n + 1 && starts.last() == data@.len() {
        let starts = choose|starts: Seq<int>| #[trigger]
            follow_each_other(data@, starts) && compact_size_at(data@, 0)->Ok_0.0 == n
                && starts.len() == n + 1 && starts.last() == data@.len();
        assert(cuts_outputs(data@, starts));
        assert(compact_size_at(data@, 0) == Ok::<(nat, int), WireError>((n as nat, starts[0])));
    }
}

/// A vector that is refused breaks off somewhere: in its count, in the first output that is not
/// whole, or with bytes left over behind the last output. The error tells which.
pub proof fn refused_vectors_break_off(data: &[u8], count: Result<usize, WireError>)
    requires
        data@.len() <= usize::MAX,
        call_ensures(parse_tx_output_vector, (data,), count),
        count is Err,
        compact_size_at(data@, 0) is Ok,
        compact_size_at(data@, 0)->Ok_0.0 <= usize::MAX,
    ensures
        exists|starts: Seq<int>| #[trigger]
            follow_each_other(data@, starts) && ({
                let announced = compact_size_at(data@, 0)->Ok_0.0;
                let at = starts.last();
                let script = compact_size_at(data@, at + 8);
                ||| starts.len() == announced + 1 && at != data@.len() && count->Err_0
                    == WireError::TrailingBytes
                ||| starts.len() <= announced && data@.len() < at + 8 && count->Err_0
                    == WireError::TruncatedValue
                ||| starts.len() <= announced && at + 8 <= data@.len() && script is Err
                    && count->Err_0 == script->Err_0
                ||| starts.len() <= announced && at + 8 <= data@.len() && script is Ok
                    && script->Ok_0.1 + script->Ok_0.0 > usize::MAX && count->Err_0
                    == WireError::ScriptLengthOverflow
                ||| starts.len() <= announced && at + 8 <= data@.len() && script is Ok
                    && data@.len() < script->Ok_0.1 + script->Ok_0.0 <= usize::MAX
                    && count->Err_0 == WireError::TruncatedScript
            }),
{
    let (announced, first) = compact_size_at(data@, 0)->Ok_0;
    let starts = lemma_starts_of(data@, first, announced);
    assert(follow_each_other(data@, starts));
}

/// A vector whose count cannot be read, or is beyond every length, is refused for that.
pub proof fn vectors_without_a_count_are_refused(data: &[u8], count: Result<usize, WireError>)
    requires
        call_ensures(parse_tx_output_vector, (data,), count),
    ensures
        compact_size_at(data@, 0) is Err ==> count == Err::<usize, WireError>(
            compact_size_at(data@, 0)->Err_0,
        ),
        compact_size_at(data@, 0) is Ok && compact_size_at(data@, 0)->Ok_0.0 > usize::MAX ==> count
            == Err::<usize, WireError>(WireError::OutputCountOverflow),
{
}

/// The messages of the errors.
pub proof fn wire_errors_are_told(error: &WireError, message: &'static str)
    requires
        call_ensures(WireError::message, (error,), message),
    ensures
        message@ == error.text(),
        error is MissingCompactSize ==> message@ == "missing compact size"@,
        error is CompactSizeOverflow ==> message@ == "compact size overflow"@,
        error is TruncatedCompactSize ==> message@ == "truncated compact size"@,
        error is OutputCountOverflow ==> message@ == "output count overflow"@,
        error is TruncatedValue ==> message@ == "truncated payout value"@,
        error is ScriptLengthOverflow ==> message@ == "script length overflow"@,
        error is TruncatedScript ==> message@ == "truncated payout script"@,
        error is TrailingBytes ==> message@ == "trailing bytes in payout vector"@,
{
}

} // verus!
