//! What the reader of payout vectors is held to: it counts exactly the outputs of every
//! encoded vector, and whatever it accepts is cut into that many outputs without a rest.

use vstd::prelude::*;

use crate::wire::{
    byte_range, compact_size_at, compact_size_width, le_value, output_count, output_end,
    outputs_end, WireError, VALUE_BYTES,
};

verus! {

/// A number as `width` bytes in little-endian order.
pub open spec fn le_bytes(n: nat, width: nat) -> Seq<u8>
    decreases width,
{
    if width == 0 {
        Seq::empty()
    } else {
        seq![(n % 256) as u8] + le_bytes(n / 256, (width - 1) as nat)
    }
}

/// The shortest compact size of a number.
pub open spec fn compact_size(n: nat) -> Seq<u8> {
    if n <= 0xfc {
        seq![n as u8]
    } else if n <= 0xffff {
        seq![0xfdu8] + le_bytes(n, 2)
    } else if n <= 0xffff_ffff {
        seq![0xfeu8] + le_bytes(n, 4)
    } else {
        seq![0xffu8] + le_bytes(n, 8)
    }
}

/// An output of a transaction.
pub struct TxOutput {
    pub value: u64,
    pub script: Seq<u8>,
}

/// A serialized output.
pub open spec fn tx_output(output: TxOutput) -> Seq<u8> {
    le_bytes(output.value as nat, VALUE_BYTES as nat) + compact_size(output.script.len())
        + output.script
}

/// The serialized outputs one behind the other.
pub open spec fn tx_outputs(outputs: Seq<TxOutput>) -> Seq<u8>
    decreases outputs.len(),
{
    if outputs.len() == 0 {
        Seq::empty()
    } else {
        tx_output(outputs[0]) + tx_outputs(outputs.skip(1))
    }
}

/// A serialized payout vector.
pub open spec fn tx_output_vector(outputs: Seq<TxOutput>) -> Seq<u8> {
    compact_size(outputs.len()) + tx_outputs(outputs)
}

/// The places at which `data` is cut, from the first output to the end, so that an output lies
/// between each two of them.
pub open spec fn cuts_outputs(data: Seq<u8>, cuts: Seq<int>) -> bool {
    &&& cuts.len() > 0
    &&& cuts.last() == data.len()
    &&& forall|i: int|
        #![trigger cuts[i]]
        0 <= i < cuts.len() - 1 ==> output_end(data, cuts[i]) == Ok::<int, WireError>(cuts[i + 1])
}

/// A number written in little-endian order is read back.
pub proof fn le_bytes_read_back(n: nat, width: nat)
    requires
        n < byte_range(width),
    ensures
        le_bytes(n, width).len() == width,
        le_value(le_bytes(n, width)) == n,
    decreases width,
{
    if width > 0 {
        let rest = le_bytes(n / 256, (width - 1) as nat);
        le_bytes_read_back(n / 256, (width - 1) as nat);
        assert(le_bytes(n, width).skip(1) =~= rest);
    }
}

/// A number that was written as a compact size is read back wherever it stands, and reading
/// ends right behind it.
pub proof fn compact_size_read_back(before: Seq<u8>, n: nat, after: Seq<u8>)
    requires
        n <= u64::MAX,
        (before + compact_size(n) + after).len() <= usize::MAX,
    ensures
        compact_size_at(before + compact_size(n) + after, before.len() as int) == Ok::<
            (nat, int),
            WireError,
        >((n, (before + compact_size(n)).len() as int)),
{
    let data = before + compact_size(n) + after;
    let width: nat = if n <= 0xfc {
        0
    } else if n <= 0xffff {
        2
    } else if n <= 0xffff_ffff {
        4
    } else {
        8
    };
    reveal_with_fuel(byte_range, 9);
    assert(data[before.len() as int] == compact_size(n)[0]);
    assert(compact_size_width(compact_size(n)[0]) == width);
    if width > 0 {
        le_bytes_read_back(n, width);
        let start = before.len() + 1;
        assert(data.subrange(start as int, (start + width) as int) =~= le_bytes(n, width));
    }
}

/// Reading an output that was written ends right behind it, wherever it stands.
pub proof fn tx_output_read_back(before: Seq<u8>, output: TxOutput, after: Seq<u8>)
    requires
        (before + tx_output(output) + after).len() <= usize::MAX,
    ensures
        output_end(before + tx_output(output) + after, before.len() as int) == Ok::<int, WireError>(
            (before + tx_output(output)).len() as int,
        ),
{
    let data = before + tx_output(output) + after;
    let value = le_bytes(output.value as nat, VALUE_BYTES as nat);
    reveal_with_fuel(byte_range, 9);
    le_bytes_read_back(output.value as nat, VALUE_BYTES as nat);
    assert(output.script.len() <= tx_output(output).len());
    compact_size_read_back(before + value, output.script.len(), output.script + after);
    assert(data =~= (before + value) + compact_size(output.script.len()) + (output.script + after));
}

proof fn lemma_tx_outputs_read_back(before: Seq<u8>, outputs: Seq<TxOutput>)
    requires
        (before + tx_outputs(outputs)).len() <= usize::MAX,
    ensures
        outputs_end(before + tx_outputs(outputs), before.len() as int, outputs.len()) == Ok::<
            int,
            WireError,
        >((before + tx_outputs(outputs)).len() as int),
    decreases outputs.len(),
{
    if outputs.len() > 0 {
        let first = tx_output(outputs[0]);
        let rest = outputs.skip(1);
        assert(before + tx_outputs(outputs) =~= before + first + tx_outputs(rest));
        tx_output_read_back(before, outputs[0], tx_outputs(rest));
        lemma_tx_outputs_read_back(before + first, rest);
    }
}

/// Every list of outputs that fits in memory is counted right once it is serialized.
pub proof fn written_vector_is_counted(outputs: Seq<TxOutput>)
    requires
        tx_output_vector(outputs).len() <= usize::MAX,
    ensures
        output_count(tx_output_vector(outputs)) == Ok::<nat, WireError>(outputs.len()),
{
    let n = outputs.len();
    lemma_outputs_len(outputs);
    compact_size_read_back(Seq::empty(), n, tx_outputs(outputs));
    assert(Seq::<u8>::empty() + compact_size(n) + tx_outputs(outputs) =~= tx_output_vector(outputs));
    assert(Seq::<u8>::empty() + compact_size(n) =~= compact_size(n));
    lemma_tx_outputs_read_back(compact_size(n), outputs);
}

proof fn lemma_outputs_len(outputs: Seq<TxOutput>)
    ensures
        outputs.len() <= tx_outputs(outputs).len(),
    decreases outputs.len(),
{
    if outputs.len() > 0 {
        reveal_with_fuel(byte_range, 9);
        le_bytes_read_back(outputs[0].value as nat, VALUE_BYTES as nat);
        lemma_outputs_len(outputs.skip(1));
    }
}

proof fn lemma_output_advances(data: Seq<u8>, offset: int)
    requires
        0 <= offset,
        output_end(data, offset) is Ok,
    ensures
        offset + 9 <= output_end(data, offset)->Ok_0 <= data.len(),
{
}

proof fn lemma_cuts_of(data: Seq<u8>, offset: int, count: nat) -> (cuts: Seq<int>)
    requires
        0 <= offset,
        outputs_end(data, offset, count) == Ok::<int, WireError>(data.len() as int),
    ensures
        cuts_outputs(data, cuts),
        cuts.len() == count + 1,
        cuts[0] == offset,
        offset + 9 * count <= data.len(),
    decreases count,
{
    if count == 0 {
        seq![offset]
    } else {
        let next = output_end(data, offset)->Ok_0;
        lemma_output_advances(data, offset);
        let rest = lemma_cuts_of(data, next, (count - 1) as nat);
        let cuts = seq![offset] + rest;
        assert forall|i: int| #![trigger cuts[i]] 0 <= i < cuts.len() - 1 implies output_end(
            data,
            cuts[i],
        ) == Ok::<int, WireError>(cuts[i + 1]) by {
            if i > 0 {
                assert(rest[i - 1] == cuts[i]);
                assert(rest[i - 1 + 1] == cuts[i + 1]);
            }
        }
        cuts
    }
}

proof fn lemma_end_of_cuts(data: Seq<u8>, cuts: Seq<int>)
    requires
        cuts_outputs(data, cuts),
    ensures
        outputs_end(data, cuts[0], (cuts.len() - 1) as nat) == Ok::<int, WireError>(
            data.len() as int,
        ),
    decreases cuts.len(),
{
    if cuts.len() > 1 {
        let rest = cuts.skip(1);
        assert(output_end(data, cuts[0]) == Ok::<int, WireError>(cuts[1]));
        assert forall|i: int| #![trigger rest[i]] 0 <= i < rest.len() - 1 implies output_end(
            data,
            rest[i],
        ) == Ok::<int, WireError>(rest[i + 1]) by {
            assert(rest[i] == cuts[i + 1]);
            assert(rest[i + 1] == cuts[i + 1 + 1]);
        }
        assert(rest.last() == cuts.last());
        lemma_end_of_cuts(data, rest);
    }
}

/// A byte string is a payout vector of `n` outputs exactly when it starts with the compact
/// size `n` and what follows is cut into `n` outputs up to the last byte.
pub proof fn vector_is_cut_into_outputs(data: Seq<u8>, n: nat)
    ensures
        output_count(data) == Ok::<nat, WireError>(n) <==> n <= usize::MAX && exists|
            cuts: Seq<int>,
        |
            cuts_outputs(data, cuts) && cuts.len() == n + 1 && compact_size_at(data, 0) == Ok::<
                (nat, int),
                WireError,
            >((n, cuts[0])),
{
    if output_count(data) == Ok::<nat, WireError>(n) {
        let first = compact_size_at(data, 0)->Ok_0.1;
        let cuts = lemma_cuts_of(data, first, n);
        assert(cuts_outputs(data, cuts));
    }
    if n <= usize::MAX && exists|cuts: Seq<int>|
        cuts_outputs(data, cuts) && cuts.len() == n + 1 && compact_size_at(data, 0) == Ok::<
            (nat, int),
            WireError,
        >((n, cuts[0])) {
        let cuts = choose|cuts: Seq<int>|
            cuts_outputs(data, cuts) && cuts.len() == n + 1 && compact_size_at(data, 0) == Ok::<
                (nat, int),
                WireError,
            >((n, cuts[0]));
        lemma_end_of_cuts(data, cuts);
    }
}

/// Each output takes at least nine bytes behind the count.
pub proof fn outputs_take_room(data: Seq<u8>)
    requires
        output_count(data) is Ok,
    ensures
        1 + 9 * output_count(data)->Ok_0 <= data.len(),
{
    let (n, first) = compact_size_at(data, 0)->Ok_0;
    let cuts = lemma_cuts_of(data, first, n);
}

} // verus!
