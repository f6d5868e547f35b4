//! The serialized payout vector of a coinbase transaction.
//!
//! A vector is a compact size that counts the outputs, followed by the outputs. An output is
//! an eight-byte value, a compact size that counts the bytes of the script, and the script.
//! A compact size is one byte up to `0xfc`, or a marker byte followed by two, four or eight
//! bytes in little-endian order. Encodings longer than needed are accepted.

use vstd::prelude::*;

verus! {

/// Number of bytes of the value that starts each output.
pub const VALUE_BYTES: usize = 8;

/// Why a byte string is not a serialized payout vector.
#[derive(Debug, Clone, Copy, PartialEq, Eq, Structural)]
pub enum WireError {
    MissingCompactSize,
    CompactSizeOverflow,
    TruncatedCompactSize,
    OutputCountOverflow,
    TruncatedValue,
    ScriptLengthOverflow,
    TruncatedScript,
    TrailingBytes,
}

impl WireError {
    /// The message that describes the error.
    pub open spec fn text(self) -> Seq<char> {
        match self {
            WireError::MissingCompactSize => "missing compact size"@,
            WireError::CompactSizeOverflow => "compact size overflow"@,
            WireError::TruncatedCompactSize => "truncated compact size"@,
            WireError::OutputCountOverflow => "output count overflow"@,
            WireError::TruncatedValue => "truncated payout value"@,
            WireError::ScriptLengthOverflow => "script length overflow"@,
            WireError::TruncatedScript => "truncated payout script"@,
            WireError::TrailingBytes => "trailing bytes in payout vector"@,
        }
    }

    /// Returns the message that describes the error.
    pub fn message(&self) -> (message: &'static str)
        ensures
            message@ == self.text(),
    {
        match self {
            WireError::MissingCompactSize => "missing compact size",
            WireError::CompactSizeOverflow => "compact size overflow",
            WireError::TruncatedCompactSize => "truncated compact size",
            WireError::OutputCountOverflow => "output count overflow",
            WireError::TruncatedValue => "truncated payout value",
            WireError::ScriptLengthOverflow => "script length overflow",
            WireError::TruncatedScript => "truncated payout script",
            WireError::TrailingBytes => "trailing bytes in payout vector",
        }
    }
}

/// The number that a byte string denotes in little-endian order.
pub open spec fn le_value(bytes: Seq<u8>) -> nat
    decreases bytes.len(),
{
    if bytes.len() == 0 {
        0
    } else {
        bytes[0] as nat + 256 * le_value(bytes.skip(1))
    }
}

/// How many numbers fit in `width` bytes.
pub open spec fn byte_range(width: nat) -> nat
    decreases width,
{
    if width == 0 {
        1
    } else {
        256 * byte_range((width - 1) as nat)
    }
}

/// Number of bytes that follow the first byte of a compact size.
pub open spec fn compact_size_width(first: u8) -> int {
    if first <= 0xfc {
        0
    } else if first == 0xfd {
        2
    } else if first == 0xfe {
        4
    } else {
        8
    }
}

/// The number that `width` bytes denote from `offset` on, and the offset behind it.
pub open spec fn le_at(data: Seq<u8>, offset: int, width: int) -> Result<(nat, int), WireError> {
    if offset + width > usize::MAX {
        Err(WireError::CompactSizeOverflow)
    } else if offset + width > data.len() {
        Err(WireError::TruncatedCompactSize)
    } else {
        Ok((le_value(data.subrange(offset, offset + width)), offset + width))
    }
}

/// The compact size that starts at `offset`: its value and the offset behind it.
pub open spec fn compact_size_at(data: Seq<u8>, offset: int) -> Result<(nat, int), WireError> {
    if !(0 <= offset < data.len()) {
        Err(WireError::MissingCompactSize)
    } else if compact_size_width(data[offset]) == 0 {
        Ok((data[offset] as nat, offset + 1))
    } else {
        le_at(data, offset + 1, compact_size_width(data[offset]))
    }
}

/// The offset behind the output that starts at `offset`.
pub open spec fn output_end(data: Seq<u8>, offset: int) -> Result<int, WireError> {
    if data.len() - offset < VALUE_BYTES {
        Err(WireError::TruncatedValue)
    } else {
        match compact_size_at(data, offset + VALUE_BYTES) {
            Err(e) => Err(e),
            Ok((script, next)) => if script > usize::MAX || next + script > usize::MAX {
                Err(WireError::ScriptLengthOverflow)
            } else if next + script > data.len() {
                Err(WireError::TruncatedScript)
            } else {
                Ok(next + script)
            },
        }
    }
}

/// The offset behind `count` outputs, the first of which starts at `offset`.
pub open spec fn outputs_end(data: Seq<u8>, offset: int, count: nat) -> Result<int, WireError>
    decreases count,
{
    if count == 0 {
        Ok(offset)
    } else {
        match output_end(data, offset) {
            Err(e) => Err(e),
            Ok(next) => outputs_end(data, next, (count - 1) as nat),
        }
    }
}

/// The number of outputs of a serialized payout vector.
pub open spec fn output_count(data: Seq<u8>) -> Result<nat, WireError> {
    match compact_size_at(data, 0) {
        Err(e) => Err(e),
        Ok((count, first)) => if count > usize::MAX {
            Err(WireError::OutputCountOverflow)
        } else {
            match outputs_end(data, first, count) {
                Err(e) => Err(e),
                Ok(end) => if end != data.len() {
                    Err(WireError::TrailingBytes)
                } else {
                    Ok(count)
                },
            }
        },
    }
}

/// A number in little-endian order is less than the range of its bytes.
pub proof fn lemma_le_value_range(bytes: Seq<u8>)
    ensures
        le_value(bytes) < byte_range(bytes.len()),
    decreases bytes.len(),
{
    if bytes.len() > 0 {
        lemma_le_value_range(bytes.skip(1));
    }
}

proof fn lemma_byte_range_u64(width: nat)
    requires
        width <= 8,
    ensures
        byte_range(width) <= u64::MAX + 1,
{
    reveal_with_fuel(byte_range, 9);
}

/// Reads the number that `width` bytes denote from `offset` on, in little-endian order, and
/// returns it with the offset behind it.
pub fn read_le(data: &[u8], offset: usize, width: usize) -> (read: Result<(u64, usize), WireError>)
    requires
        width <= 8 || offset + width > data@.len(),
    ensures
        match le_at(data@, offset as int, width as int) {
            Ok((value, next)) => read is Ok && read->Ok_0.0 == value && read->Ok_0.1 == next,
            Err(e) => read == Err::<(u64, usize), WireError>(e),
        },
{
    let end: usize = match offset.checked_add(width) {
        Some(end) => end,
        None => {
            return Err(WireError::CompactSizeOverflow);
        },
    };
    if end > data.len() {
        return Err(WireError::TruncatedCompactSize);
    }
    let mut value: u64 = 0;
    let mut at: usize = end;
    while at > offset
        invariant
            offset <= at <= end <= data@.len(),
            end - offset <= 8,
            value == le_value(data@.subrange(at as int, end as int)),
        decreases at,
    {
        let ghost tail = data@.subrange(at as int, end as int);
        let ghost longer = data@.subrange(at - 1, end as int);
        proof {
            assert(longer.skip(1) =~= tail);
            lemma_le_value_range(longer);
            lemma_byte_range_u64(longer.len());
        }
        at = at - 1;
        value = data[at] as u64 + 256 * value;
    }
    Ok((value, end))
}

/// Reads the compact size that starts at `offset`, and returns it with the offset behind it.
pub fn read_compact_size(data: &[u8], offset: usize) -> (read: Result<(u64, usize), WireError>)
    ensures
        match compact_size_at(data@, offset as int) {
            Ok((value, next)) => read is Ok && read->Ok_0.0 == value && read->Ok_0.1 == next,
            Err(e) => read == Err::<(u64, usize), WireError>(e),
        },
{
    if offset >= data.len() {
        return Err(WireError::MissingCompactSize);
    }
    let first: u8 = data[offset];
    if first <= 0xfc {
        Ok((first as u64, offset + 1))
    } else if first == 0xfd {
        read_le(data, offset + 1, 2)
    } else if first == 0xfe {
        read_le(data, offset + 1, 4)
    } else {
        read_le(data, offset + 1, 8)
    }
}

/// Counts the outputs of a serialized payout vector, which must fill the whole of `data`.
pub fn parse_tx_output_vector(data: &[u8]) -> (count: Result<usize, WireError>)
    ensures
        match output_count(data@) {
            Ok(n) => count is Ok && count->Ok_0 == n,
            Err(e) => count == Err::<usize, WireError>(e),
        },
{
    let (announced, first) = match read_compact_size(data, 0) {
        Ok(read) => read,
        Err(e) => {
            return Err(e);
        },
    };
    if announced > usize::MAX as u64 {
        return Err(WireError::OutputCountOverflow);
    }
    let count: usize = announced as usize;
    let mut offset: usize = first;
    let mut done: usize = 0;
    while done < count
        invariant
            done <= count,
            offset <= data@.len(),
            compact_size_at(data@, 0) == Ok::<(nat, int), WireError>((count as nat, first as int)),
            outputs_end(data@, first as int, count as nat) == outputs_end(
                data@,
                offset as int,
                (count - done) as nat,
            ),
        decreases count - done,
    {
        if data.len() - offset < VALUE_BYTES {
            return Err(WireError::TruncatedValue);
        }
        let (script, next) = match read_compact_size(data, offset + VALUE_BYTES) {
            Ok(read) => read,
            Err(e) => {
                return Err(e);
            },
        };
        if script > usize::MAX as u64 {
            return Err(WireError::ScriptLengthOverflow);
        }
        let end: usize = match next.checked_add(script as usize) {
            Some(end) => end,
            None => {
                return Err(WireError::ScriptLengthOverflow);
            },
        };
        if end > data.len() {
            return Err(WireError::TruncatedScript);
        }
        offset = end;
        done = done + 1;
    }
    if offset != data.len() {
        return Err(WireError::TrailingBytes);
    }
    Ok(count)
}

} // verus!
