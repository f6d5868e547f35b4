//! Files that hold secrets: the fee secret in hexadecimal, and the node's token as text.

use vstd::prelude::*;
use vstd::string::*;

use crate::hexcodec::{
    decode_hex, encode_hex, hex_bytes, hex_read_back, hex_text, is_hex, is_hex_digit,
};
use crate::text::{lemma_trim_line, trim, trimmed};

verus! {

/// The number of bytes that a fee secret has at least, and that a new one has.
pub const FEE_SECRET_BYTES: usize = 32;

/// Why the content of a file is no fee secret.
#[derive(Debug, Clone, Copy, PartialEq, Eq, Structural)]
pub enum SecretError {
    NotHex,
    TooShort,
}

impl SecretError {
    /// The message that describes the error.
    pub open spec fn text(self) -> Seq<char> {
        match self {
            SecretError::NotHex => "decode fee secret"@,
            SecretError::TooShort => "fee secret must be at least 32 bytes"@,
        }
    }

    /// Returns the message that describes the error.
    pub fn message(&self) -> (message: &'static str)
        ensures
            message@ == self.text(),
    {
        match self {
            SecretError::NotHex => "decode fee secret",
            SecretError::TooShort => "fee secret must be at least 32 bytes",
        }
    }
}

/// The fee secret that a file holds.
pub open spec fn secret_in(file: Seq<char>) -> Result<Seq<u8>, SecretError> {
    if !is_hex(trimmed(file)) {
        Err(SecretError::NotHex)
    } else if hex_bytes(trimmed(file)).len() < FEE_SECRET_BYTES {
        Err(SecretError::TooShort)
    } else {
        Ok(hex_bytes(trimmed(file)))
    }
}

/// The file that a fee secret is written to.
pub open spec fn secret_file(secret: Seq<u8>) -> Seq<char> {
    hex_text(secret).push('\n')
}

/// Reads a fee secret from the content of its file.
pub fn parse_fee_secret(file: &str) -> (secret: Result<Vec<u8>, SecretError>)
    ensures
        match secret_in(file@) {
            Ok(bytes) => secret is Ok && secret->Ok_0@ == bytes,
            Err(e) => secret is Err && secret->Err_0 == e,
        },
{
    match decode_hex(trim(file)) {
        Ok(secret) => {
            if secret.len() < FEE_SECRET_BYTES {
                return Err(SecretError::TooShort);
            }
            Ok(secret)
        },
        Err(_) => Err(SecretError::NotHex),
    }
}

/// Writes the content of a fee secret's file.
pub fn fee_secret_file(secret: &[u8]) -> (file: String)
    requires
        2 * secret@.len() <= isize::MAX,
    ensures
        file@ == secret_file(secret@),
{
    let mut file = encode_hex(secret);
    file.append("\n");
    proof {
        reveal_strlit("\n");
        assert(file@ =~= secret_file(secret@));
    }
    file
}

/// Reads the node's token from the content of its file.
pub fn adapter_token(file: &str) -> (token: String)
    ensures
        token@ == trimmed(file@),
{
    trim(file).to_owned()
}

/// A fee secret that was written to its file is read back.
pub proof fn written_secret_is_read_back(secret: Seq<u8>)
    requires
        secret.len() >= FEE_SECRET_BYTES,
    ensures
        secret_in(secret_file(secret)) == Ok::<Seq<u8>, SecretError>(secret),
{
    let text = hex_text(secret);
    hex_read_back(secret);
    assert(is_hex_digit(text[0]) && is_hex_digit(text.last()));
    lemma_trim_line(text);
}

} // verus!
