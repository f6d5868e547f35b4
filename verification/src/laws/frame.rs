//! Messages on the socket.

use vstd::prelude::*;

use crate::config::Config;
use crate::frame::{check_length, frame_response, read_length, FrameError};
use crate::text::decimal;

verus! {

/// A length is read from four bytes, the first of which counts most.
pub proof fn lengths_are_big_endian(bytes: &[u8], length: u32)
    requires
        bytes@.len() == 4,
        call_ensures(read_length, (bytes,), length),
    ensures
        length == 0x100_0000 * bytes@[0] + 0x1_0000 * bytes@[1] + 0x100 * bytes@[2] + bytes@[3],
{
}

/// A message is read unless it is empty or longer than the limit.
pub proof fn lengths_are_checked_against_the_limit(
    length: u32,
    config: &Config,
    checked: Result<usize, FrameError>,
)
    requires
        call_ensures(check_length, (length, config), checked),
    ensures
        1 <= length <= config.maximum_message_bytes ==> checked is Ok && checked->Ok_0 == length,
        length == 0 || length > config.maximum_message_bytes ==> checked is Err && checked->Err_0
            == FrameError::InvalidLength(length as usize),
{
}

/// A response longer than the limit is refused. Any other one is sent behind its length.
pub proof fn responses_are_sent_behind_their_length(
    response: &[u8],
    config: &Config,
    bytes: Result<Vec<u8>, FrameError>,
)
    requires
        call_ensures(frame_response, (response, config), bytes),
    ensures
        response@.len() > config.maximum_message_bytes ==> bytes is Err && bytes->Err_0
            == FrameError::ResponseTooLong,
        response@.len() <= config.maximum_message_bytes ==> bytes is Ok && bytes->Ok_0@.len() == 4
            + response@.len() && bytes->Ok_0@.skip(4) == response@ && (0x100_0000 * bytes->Ok_0@[0]
            + 0x1_0000 * bytes->Ok_0@[1] + 0x100 * bytes->Ok_0@[2] + bytes->Ok_0@[3]
            == response@.len() % 0x1_0000_0000),
{
    if bytes is Ok {
        assert(bytes->Ok_0@.skip(4) =~= response@);
    }
}

/// Calls in a row: the length in front of a response that was sent is its own, and a reader with
/// the same limit reads it.
pub proof fn sent_responses_can_be_read(
    response: &[u8],
    config: &Config,
    bytes: Result<Vec<u8>, FrameError>,
    front: &[u8],
    length: u32,
    checked: Result<usize, FrameError>,
)
    requires
        0 < response@.len() <= 0xffff_ffff,
        call_ensures(frame_response, (response, config), bytes),
        bytes is Ok,
        front@ == bytes->Ok_0@.take(4),
        call_ensures(read_length, (front,), length),
        call_ensures(check_length, (length, config), checked),
    ensures
        length == response@.len(),
        checked is Ok,
        checked->Ok_0 == response@.len(),
{
    responses_are_sent_behind_their_length(response, config, bytes);
    assert(response@.len() % 0x1_0000_0000 == response@.len());
}

/// The messages of the errors.
pub proof fn frame_errors_are_told(error: &FrameError, message: String)
    requires
        call_ensures(FrameError::message, (error,), message),
    ensures
        match *error {
            FrameError::InvalidLength(length) => message@ == "invalid IPC message length "@
                + decimal(length as nat),
            FrameError::ResponseTooLong => message@ == "IPC response exceeds configured limit"@,
        },
{
}

} // verus!
