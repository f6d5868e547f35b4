//! Secrets in files.

use vstd::prelude::*;

use crate::hexcodec::{hex_bytes, hex_text, is_hex};
use crate::secret::{
    adapter_token, fee_secret_file, parse_fee_secret, written_secret_is_read_back, SecretError,
    FEE_SECRET_BYTES,
};
use crate::text::trimmed;

verus! {

/// The secret in a file is what its hexadecimal text stands for, without the white space around.
/// Other text is refused, and so is a secret of less than 32 bytes.
pub proof fn secrets_are_hexadecimal_and_long_enough(
    file: &str,
    secret: Result<Vec<u8>, SecretError>,
)
    requires
        call_ensures(parse_fee_secret, (file,), secret),
    ensures
        !is_hex(trimmed(file@)) ==> secret is Err && secret->Err_0 is NotHex,
        is_hex(trimmed(file@)) && trimmed(file@).len() < 64 ==> secret is Err
            && secret->Err_0 is TooShort,
        is_hex(trimmed(file@)) && trimmed(file@).len() >= 64 ==> secret is Ok && secret->Ok_0@
            == hex_bytes(trimmed(file@)),
        secret is Ok ==> secret->Ok_0@.len() >= 32,
        FEE_SECRET_BYTES == 32,
{
}

/// The file of a secret holds its hexadecimal text and the end of the line.
pub proof fn files_hold_hexadecimal_lines(secret: &[u8], file: String)
    requires
        call_ensures(fee_secret_file, (secret,), file),
    ensures
        file@ == hex_text(secret@) + seq!['\n'],
{
    assert(hex_text(secret@).push('\n') =~= hex_text(secret@) + seq!['\n']);
}

/// Calls in a row: a secret of at least 32 bytes that was written is read back.
pub proof fn written_secrets_are_read_back(
    secret: &[u8],
    file: String,
    content: &str,
    read: Result<Vec<u8>, SecretError>,
)
    requires
        secret@.len() >= 32,
        call_ensures(fee_secret_file, (secret,), file),
        content@ == file@,
        call_ensures(parse_fee_secret, (content,), read),
    ensures
        read is Ok,
        read->Ok_0@ == secret@,
{
    written_secret_is_read_back(secret@);
}

/// The token is what its file holds between white space.
pub proof fn tokens_stand_between_white_space(file: &str, token: String)
    requires
        call_ensures(adapter_token, (file,), token),
    ensures
        token@ == trimmed(file@),
{
}

/// The messages of the errors.
pub proof fn secret_errors_are_told(error: &SecretError, message: &'static str)
    requires
        call_ensures(SecretError::message, (error,), message),
    ensures
        error is NotHex ==> message@ == "decode fee secret"@,
        error is TooShort ==> message@ == "fee secret must be at least 32 bytes"@,
{
}

} // verus!
