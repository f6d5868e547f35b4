//! Messages on the local socket: a length of four bytes in big-endian order, and the message.

use vstd::prelude::*;

use crate::config::Config;
use crate::text::{decimal, decimal_text, join};

verus! {

/// The number of bytes in front of a message.
pub const PREFIX_BYTES: usize = 4;

/// Why a message is not read or sent.
#[derive(Debug, Clone, Copy, PartialEq, Eq, Structural)]
pub enum FrameError {
    InvalidLength(usize),
    ResponseTooLong,
}

impl FrameError {
    /// The message that describes the error.
    pub open spec fn text(self) -> Seq<char> {
        match self {
            FrameError::InvalidLength(length) => "invalid IPC message length "@ + decimal(
                length as nat,
            ),
            FrameError::ResponseTooLong => "IPC response exceeds configured limit"@,
        }
    }

    /// Returns the message that describes the error.
    pub fn message(&self) -> (message: String)
        ensures
            message@ == self.text(),
    {
        match self {
            FrameError::InvalidLength(length) => join(
                "invalid IPC message length ",
                decimal_text(*length as u128).as_str(),
            ),
            FrameError::ResponseTooLong => "IPC response exceeds configured limit".to_owned(),
        }
    }
}

/// A number below 2^32 as four bytes in big-endian order.
pub open spec fn prefix(n: int) -> Seq<u8> {
    seq![
        (n / 0x100_0000 % 256) as u8,
        (n / 0x1_0000 % 256) as u8,
        (n / 0x100 % 256) as u8,
        (n % 256) as u8,
    ]
}

/// The length that four bytes announce.
pub open spec fn announced(bytes: Seq<u8>) -> int {
    bytes[0] * 0x100_0000 + bytes[1] * 0x1_0000 + bytes[2] * 0x100 + bytes[3]
}

/// A message as it is sent. The length is kept to its four bytes.
pub open spec fn framed(message: Seq<u8>) -> Seq<u8> {
    prefix(message.len() as int % 0x1_0000_0000) + message
}

/// Whether a message of a length is read.
pub open spec fn is_readable(length: int, config: Config) -> bool {
    0 < length <= config.maximum_message_bytes
}

/// Reads the length in front of a message.
pub fn read_length(bytes: &[u8]) -> (length: u32)
    requires
        bytes@.len() == PREFIX_BYTES,
    ensures
        length == announced(bytes@),
{
    bytes[0] as u32 * 0x100_0000 + bytes[1] as u32 * 0x1_0000 + bytes[2] as u32 * 0x100
        + bytes[3] as u32
}

/// Checks the length in front of a message before the message is read.
pub fn check_length(length: u32, config: &Config) -> (checked: Result<usize, FrameError>)
    ensures
        checked is Ok <==> is_readable(length as int, *config),
        checked is Ok ==> checked->Ok_0 == length,
        checked is Err ==> checked->Err_0 == FrameError::InvalidLength(length as usize),
{
    let length: usize = length as usize;
    if length == 0 || length > config.maximum_message_bytes {
        return Err(FrameError::InvalidLength(length));
    }
    Ok(length)
}

/// Puts the length in front of a response.
pub fn frame_response(response: &[u8], config: &Config) -> (bytes: Result<Vec<u8>, FrameError>)
    ensures
        bytes is Ok <==> response@.len() <= config.maximum_message_bytes,
        bytes is Ok ==> bytes->Ok_0@ == framed(response@),
        bytes is Err ==> bytes->Err_0 == FrameError::ResponseTooLong,
{
    if response.len() > config.maximum_message_bytes {
        return Err(FrameError::ResponseTooLong);
    }
    let length: u64 = response.len() as u64 % 0x1_0000_0000;
    let mut bytes: Vec<u8> = vec![
        (length / 0x100_0000 % 256) as u8,
        (length / 0x1_0000 % 256) as u8,
        (length / 0x100 % 256) as u8,
        (length % 256) as u8,
    ];
    bytes.extend_from_slice(response);
    proof {
        assert(bytes@ =~= framed(response@));
    }
    Ok(bytes)
}

/// A message whose length fits in four bytes is read back: the length in front of it is its
/// own, and the message follows.
pub proof fn framed_message_is_read_back(message: Seq<u8>)
    requires
        message.len() <= u32::MAX,
    ensures
        framed(message).len() == PREFIX_BYTES + message.len(),
        announced(framed(message).take(PREFIX_BYTES as int)) == message.len(),
        framed(message).skip(PREFIX_BYTES as int) == message,
{
    let n = message.len() as int;
    let bytes = framed(message).take(PREFIX_BYTES as int);
    assert(n % 0x1_0000_0000 == n);
    assert(bytes =~= prefix(n));
    assert(framed(message).skip(PREFIX_BYTES as int) =~= message);
}

/// A response within the limit, other than an empty one, is readable to a reader with the same
/// limit.
pub proof fn sent_response_is_readable(message: Seq<u8>, config: Config)
    requires
        0 < message.len() <= config.maximum_message_bytes,
        message.len() <= u32::MAX,
    ensures
        is_readable(announced(framed(message).take(PREFIX_BYTES as int)), config),
{
    framed_message_is_read_back(message);
}

} // verus!
