//! The schedule by which work is redirected to the operator's address.
//!
//! Time is cut into buckets of ten seconds. Whether a bucket is a fee window depends on a
//! keyed digest of the miner's identity and the bucket's number, and on nothing else.

use hmac::Mac;
use vstd::prelude::*;
use vstd::utf8::{
    char_is_scalar, char_u32_cast, encode_scalar, encode_utf8, encode_utf8_decode_utf8, is_scalar,
};

use crate::config::WHOLE_BASIS_POINTS;
use crate::text::lemma_split_at_first;

verus! {

/// The length of a bucket in seconds.
pub const FEE_BUCKET_SECONDS: i64 = 10;

/// The number of bytes of the digest that are read.
pub const SAMPLE_BYTES: usize = 8;

/// Why no fee decision is made.
#[derive(Debug, Clone, Copy, PartialEq, Eq, Structural)]
pub enum FeeError {
    BasisPointsTooLarge,
    InvalidSecret,
}

impl FeeError {
    /// The message that describes the error.
    pub open spec fn text(self) -> Seq<char> {
        match self {
            FeeError::BasisPointsTooLarge => "fee basis points exceed 10000"@,
            FeeError::InvalidSecret => "invalid fee secret"@,
        }
    }

    /// Returns the message that describes the error.
    pub fn message(&self) -> (message: &'static str)
        ensures
            message@ == self.text(),
    {
        match self {
            FeeError::BasisPointsTooLarge => "fee basis points exceed 10000",
            FeeError::InvalidSecret => "invalid fee secret",
        }
    }
}

/// The number of the bucket that a second lies in.
pub open spec fn bucket_of(unix_seconds: int) -> int {
    unix_seconds / (FEE_BUCKET_SECONDS as int)
}

/// A number below 2^64 as eight bytes in big-endian order.
pub open spec fn be_bytes(n: int) -> Seq<u8> {
    seq![
        (n / 0x100_0000_0000_0000 % 256) as u8,
        (n / 0x1_0000_0000_0000 % 256) as u8,
        (n / 0x100_0000_0000 % 256) as u8,
        (n / 0x1_0000_0000 % 256) as u8,
        (n / 0x100_0000 % 256) as u8,
        (n / 0x1_0000 % 256) as u8,
        (n / 0x100 % 256) as u8,
        (n % 256) as u8,
    ]
}

/// A signed number of 64 bits in two's complement.
pub open spec fn twos_complement(n: int) -> int {
    if n < 0 {
        n + 0x1_0000_0000_0000_0000
    } else {
        n
    }
}

/// The number that bytes denote in big-endian order.
pub open spec fn be_value(bytes: Seq<u8>) -> nat
    decreases bytes.len(),
{
    if bytes.len() == 0 {
        0
    } else {
        256 * be_value(bytes.drop_last()) + bytes.last() as nat
    }
}

/// What is digested for a miner and a bucket: the names, each closed by a zero byte, and the
/// bucket's number.
pub open spec fn digest_input(
    network: Seq<char>,
    parent_hash: Seq<char>,
    payout_script_hex: Seq<char>,
    bucket: int,
) -> Seq<u8> {
    encode_utf8(network) + seq![0u8] + encode_utf8(parent_hash) + seq![0u8] + encode_utf8(
        payout_script_hex,
    ) + seq![0u8] + be_bytes(twos_complement(bucket))
}

/// The number that a digest draws.
pub open spec fn sample_of(tag: Seq<u8>) -> nat {
    be_value(tag.take(SAMPLE_BYTES as int))
}

/// Whether a drawn number falls into the share of `basis_points`.
pub open spec fn is_selected(sample: nat, basis_points: int) -> bool {
    sample % (WHOLE_BASIS_POINTS as nat) < basis_points
}

/// The keyed digest HMAC-SHA-256.
pub uninterp spec fn hmac_sha256_tag(key: Seq<u8>, message: Seq<u8>) -> Seq<u8>;

/// Whether a second lies in a fee window of a miner.
pub open spec fn fee_is_active(
    secret: Seq<u8>,
    network: Seq<char>,
    parent_hash: Seq<char>,
    payout_script_hex: Seq<char>,
    unix_seconds: int,
    basis_points: int,
) -> bool {
    is_selected(
        sample_of(
            hmac_sha256_tag(
                secret,
                digest_input(network, parent_hash, payout_script_hex, bucket_of(unix_seconds)),
            ),
        ),
        basis_points,
    )
}

#[verifier::external_type_specification]
#[verifier::external_body]
pub struct ExInvalidLength(hmac::digest::InvalidLength);

/// `hmac::Hmac<sha2::Sha256>`, made by `new_from_slice` from a key, fed by `update` and closed
/// by `finalize`, takes a key of any length and yields the 32 bytes of HMAC-SHA-256, which
/// depend on the key and the message alone.
#[verifier::external_body]
fn hmac_sha256(key: &[u8], message: &[u8]) -> (tag: Result<Vec<u8>, hmac::digest::InvalidLength>)
    ensures
        tag is Ok,
        tag->Ok_0@ == hmac_sha256_tag(key@, message@),
        tag->Ok_0@.len() == 32,
{
    let mut mac = hmac::Hmac::<sha2::Sha256>::new_from_slice(key)?;
    mac.update(message);
    Ok(mac.finalize().into_bytes().to_vec())
}

/// Appends bytes.
fn append_bytes(bytes: &mut Vec<u8>, more: &[u8])
    ensures
        final(bytes)@ == old(bytes)@ + more@,
{
    bytes.extend_from_slice(more);
    proof {
        assert(bytes@ =~= old(bytes)@ + more@);
    }
}

/// Writes a signed number in two's complement, as eight bytes in big-endian order.
pub fn signed_be_bytes(n: i64) -> (bytes: Vec<u8>)
    ensures
        bytes@ == be_bytes(twos_complement(n as int)),
{
    let unsigned: u64 = if n < 0 {
        u64::MAX - ((-(n + 1)) as u64)
    } else {
        n as u64
    };
    let bytes: Vec<u8> = vec![
        (unsigned / 0x100_0000_0000_0000 % 256) as u8,
        (unsigned / 0x1_0000_0000_0000 % 256) as u8,
        (unsigned / 0x100_0000_0000 % 256) as u8,
        (unsigned / 0x1_0000_0000 % 256) as u8,
        (unsigned / 0x100_0000 % 256) as u8,
        (unsigned / 0x1_0000 % 256) as u8,
        (unsigned / 0x100 % 256) as u8,
        (unsigned % 256) as u8,
    ];
    proof {
        assert(bytes@ =~= be_bytes(unsigned as int));
    }
    bytes
}

/// Writes what is digested for a miner and a bucket.
pub fn fee_message(network: &str, parent_hash: &str, payout_script_hex: &str, bucket: i64) -> (bytes:
    Vec<u8>)
    ensures
        bytes@ == digest_input(network@, parent_hash@, payout_script_hex@, bucket as int),
{
    let mut bytes: Vec<u8> = Vec::new();
    append_bytes(&mut bytes, network.as_bytes());
    bytes.push(0);
    append_bytes(&mut bytes, parent_hash.as_bytes());
    bytes.push(0);
    append_bytes(&mut bytes, payout_script_hex.as_bytes());
    bytes.push(0);
    append_bytes(&mut bytes, signed_be_bytes(bucket).as_slice());
    proof {
        assert(bytes@ =~= digest_input(
            network@,
            parent_hash@,
            payout_script_hex@,
            bucket as int,
        ));
    }
    bytes
}

proof fn lemma_be_value_range(bytes: Seq<u8>)
    requires
        bytes.len() <= 8,
    ensures
        be_value(bytes) < crate::wire::byte_range(bytes.len()),
        crate::wire::byte_range(bytes.len()) <= u64::MAX + 1,
    decreases bytes.len(),
{
    reveal_with_fuel(crate::wire::byte_range, 9);
    if bytes.len() > 0 {
        lemma_be_value_range(bytes.drop_last());
    }
}

/// Tells whether a digest selects its bucket as a fee window.
pub fn fee_selected(tag: &[u8], basis_points: u16) -> (selected: bool)
    requires
        tag@.len() >= SAMPLE_BYTES,
    ensures
        selected == is_selected(sample_of(tag@), basis_points as int),
{
    let mut sample: u64 = 0;
    let mut i: usize = 0;
    while i < SAMPLE_BYTES
        invariant
            i <= SAMPLE_BYTES <= tag@.len(),
            sample == be_value(tag@.take(i as int)),
        decreases SAMPLE_BYTES - i,
    {
        proof {
            let longer = tag@.take(i + 1);
            assert(longer.drop_last() =~= tag@.take(i as int));
            lemma_be_value_range(longer);
        }
        sample = 256 * sample + tag[i] as u64;
        i = i + 1;
    }
    sample % (WHOLE_BASIS_POINTS as u64) < basis_points as u64
}

/// Decides for a miner and a second which bucket it lies in and whether that is a fee window.
pub fn fee_bucket(
    secret: &[u8],
    network: &str,
    parent_hash: &str,
    payout_script_hex: &str,
    unix_seconds: i64,
    basis_points: u16,
) -> (decision: Result<(i64, bool), FeeError>)
    ensures
        decision is Ok <==> basis_points <= WHOLE_BASIS_POINTS,
        decision is Ok ==> decision->Ok_0.0 == bucket_of(unix_seconds as int)
            && decision->Ok_0.1 == fee_is_active(
            secret@,
            network@,
            parent_hash@,
            payout_script_hex@,
            unix_seconds as int,
            basis_points as int,
        ),
        decision is Ok ==> hmac_sha256_tag(
            secret@,
            digest_input(network@, parent_hash@, payout_script_hex@, decision->Ok_0.0 as int),
        ).len() == 32,
        decision is Err ==> decision->Err_0 == FeeError::BasisPointsTooLarge,
{
    if basis_points > WHOLE_BASIS_POINTS {
        return Err(FeeError::BasisPointsTooLarge);
    }
    let bucket: i64 = match unix_seconds.checked_div_euclid(FEE_BUCKET_SECONDS) {
        Some(bucket) => bucket,
        None => 0,
    };
    let message = fee_message(network, parent_hash, payout_script_hex, bucket);
    match hmac_sha256(secret, message.as_slice()) {
        Ok(tag) => Ok((bucket, fee_selected(tag.as_slice(), basis_points))),
        Err(_) => Err(FeeError::InvalidSecret),
    }
}

/// Seconds of one bucket get the same decision: the schedule is stable for an identity and a
/// bucket.
pub proof fn schedule_is_stable_in_a_bucket(
    secret: Seq<u8>,
    network: Seq<char>,
    parent_hash: Seq<char>,
    payout_script_hex: Seq<char>,
    first: int,
    second: int,
    basis_points: int,
)
    requires
        bucket_of(first) == bucket_of(second),
    ensures
        fee_is_active(secret, network, parent_hash, payout_script_hex, first, basis_points)
            == fee_is_active(
            secret,
            network,
            parent_hash,
            payout_script_hex,
            second,
            basis_points,
        ),
{
}

/// A bucket is ten seconds in a row.
pub proof fn bucket_is_ten_seconds(unix_seconds: int, bucket: int)
    ensures
        bucket_of(unix_seconds) == bucket <==> FEE_BUCKET_SECONDS * bucket <= unix_seconds
            < FEE_BUCKET_SECONDS * (bucket + 1),
{
}

/// Without a fee no bucket is a fee window, and with the whole as fee every bucket is.
pub proof fn extreme_fees_select_nothing_or_all(sample: nat)
    ensures
        !is_selected(sample, 0),
        is_selected(sample, WHOLE_BASIS_POINTS as int),
{
}

/// A higher fee keeps every fee window of a lower one.
pub proof fn higher_fee_keeps_windows(sample: nat, lower: int, higher: int)
    requires
        lower <= higher,
        is_selected(sample, lower),
    ensures
        is_selected(sample, higher),
{
}

/// How many of `count` numbers from `start` on are selected.
pub open spec fn selected_count(start: nat, count: nat, basis_points: int) -> nat
    decreases count,
{
    if count == 0 {
        0
    } else {
        selected_count(start, (count - 1) as nat, basis_points) + if is_selected(
            (start + count - 1) as nat,
            basis_points,
        ) {
            1nat
        } else {
            0nat
        }
    }
}

proof fn lemma_first_run(count: nat, basis_points: int)
    requires
        count <= WHOLE_BASIS_POINTS,
        0 <= basis_points,
    ensures
        selected_count(0, count, basis_points) == if count <= basis_points {
            count as int
        } else {
            basis_points
        },
    decreases count,
{
    if count > 0 {
        lemma_first_run((count - 1) as nat, basis_points);
        vstd::arithmetic::div_mod::lemma_small_mod((count - 1) as nat, WHOLE_BASIS_POINTS as nat);
    }
}

proof fn lemma_shifted_run(start: nat, count: nat, basis_points: int)
    ensures
        selected_count(start + 1, count, basis_points) + (if is_selected(start, basis_points) {
            1nat
        } else {
            0nat
        }) == selected_count(start, count + 1, basis_points),
    decreases count,
{
    reveal_with_fuel(selected_count, 2);
    if count > 0 {
        lemma_shifted_run(start, (count - 1) as nat, basis_points);
    }
}

/// Of as many numbers in a row as there are basis points in the whole, exactly `basis_points`
/// are selected: the fee is the configured fraction of what the digest draws evenly.
pub proof fn fee_is_the_configured_fraction(start: nat, basis_points: int)
    requires
        0 <= basis_points <= WHOLE_BASIS_POINTS,
    ensures
        selected_count(start, WHOLE_BASIS_POINTS as nat, basis_points) == basis_points,
    decreases start,
{
    let whole = WHOLE_BASIS_POINTS as nat;
    if start == 0 {
        lemma_first_run(whole, basis_points);
    } else {
        let before = (start - 1) as nat;
        fee_is_the_configured_fraction(before, basis_points);
        lemma_shifted_run(before, whole, basis_points);
        assert((before + whole) % whole == before % whole) by {
            vstd::arithmetic::div_mod::lemma_mod_add_multiples_vanish(before as int, whole as int);
        }
    }
}

proof fn lemma_be_value_step(bytes: Seq<u8>, count: int, quotient: int)
    requires
        0 <= count < bytes.len(),
        0 <= quotient,
        be_value(bytes.take(count)) == quotient / 256,
        bytes[count] == quotient % 256,
    ensures
        be_value(bytes.take(count + 1)) == quotient,
{
    assert(bytes.take(count + 1).drop_last() =~= bytes.take(count));
}

/// The eight bytes of a number are read back.
#[verifier::spinoff_prover]
pub proof fn be_bytes_read_back(n: int)
    requires
        0 <= n < 0x1_0000_0000_0000_0000,
    ensures
        be_value(be_bytes(n)) == n,
{
    let bytes = be_bytes(n);
    assert(be_value(bytes.take(0)) == 0);
    lemma_be_value_step(bytes, 0, n / 0x100_0000_0000_0000);
    lemma_be_value_step(bytes, 1, n / 0x1_0000_0000_0000);
    lemma_be_value_step(bytes, 2, n / 0x100_0000_0000);
    lemma_be_value_step(bytes, 3, n / 0x1_0000_0000);
    lemma_be_value_step(bytes, 4, n / 0x100_0000);
    lemma_be_value_step(bytes, 5, n / 0x1_0000);
    lemma_be_value_step(bytes, 6, n / 0x100);
    lemma_be_value_step(bytes, 7, n);
    assert(bytes.take(8) =~= bytes);
}

proof fn lemma_no_zero_byte(text: Seq<char>)
    requires
        !text.contains('\0'),
    ensures
        !encode_utf8(text).contains(0),
    decreases text.len(),
{
    if text.len() > 0 {
        let rest = text.drop_first();
        let c = text[0] as u32;
        assert forall|i: int| 0 <= i < rest.len() implies rest[i] != '\0' by {
            assert(text[i + 1] != '\0');
        }
        lemma_no_zero_byte(rest);
        assert(text.contains(text[0]));
        char_is_scalar(text[0]);
        char_u32_cast(text[0], c);
        assert(c != 0);
        lemma_scalar_has_no_zero_byte(c);
        let bytes = encode_utf8(text);
        let head = encode_scalar(c);
        assert forall|i: int| 0 <= i < bytes.len() implies bytes[i] != 0 by {
            if i < head.len() {
                assert(head.contains(head[i]));
            } else {
                assert(encode_utf8(rest).contains(encode_utf8(rest)[i - head.len()]));
            }
        }
    }
}

proof fn lemma_scalar_has_no_zero_byte(c: u32)
    requires
        is_scalar(c),
        c != 0,
    ensures
        !encode_scalar(c).contains(0),
{
    let b1 = (c & 0x3F) as u8;
    let b2 = ((c >> 6) & 0x3F) as u8;
    let b3 = ((c >> 12) & 0x3F) as u8;
    let lead2 = ((c >> 6) & 0x1F) as u8;
    let lead3 = ((c >> 12) & 0x0F) as u8;
    let lead4 = ((c >> 18) & 0x7) as u8;
    assert(0 < c <= 0x7f ==> (c & 0x7F) as u8 != 0) by (bit_vector);
    assert(0x80 | b1 != 0 && 0x80 | b2 != 0 && 0x80 | b3 != 0) by (bit_vector);
    assert(0xC0 | lead2 != 0 && 0xE0 | lead3 != 0 && 0xF0 | lead4 != 0) by (bit_vector);
}

/// Identities whose networks and parents hold no zero character, and buckets, are told apart:
/// what is digested is the same only where network, parent, script and bucket agree.
pub proof fn identities_and_buckets_are_told_apart(
    network1: Seq<char>,
    parent1: Seq<char>,
    script1: Seq<char>,
    bucket1: i64,
    network2: Seq<char>,
    parent2: Seq<char>,
    script2: Seq<char>,
    bucket2: i64,
)
    requires
        !network1.contains('\0'),
        !network2.contains('\0'),
        !parent1.contains('\0'),
        !parent2.contains('\0'),
        digest_input(network1, parent1, script1, bucket1 as int) == digest_input(
            network2,
            parent2,
            script2,
            bucket2 as int,
        ),
    ensures
        network1 == network2,
        parent1 == parent2,
        script1 == script2,
        bucket1 == bucket2,
{
    let zero = seq![0u8];
    let number1 = be_bytes(twos_complement(bucket1 as int));
    let number2 = be_bytes(twos_complement(bucket2 as int));
    let script_on1 = encode_utf8(script1) + zero + number1;
    let script_on2 = encode_utf8(script2) + zero + number2;
    let parent_on1 = encode_utf8(parent1) + zero + script_on1;
    let parent_on2 = encode_utf8(parent2) + zero + script_on2;
    lemma_no_zero_byte(network1);
    lemma_no_zero_byte(network2);
    lemma_no_zero_byte(parent1);
    lemma_no_zero_byte(parent2);
    assert(digest_input(network1, parent1, script1, bucket1 as int) =~= encode_utf8(network1) + zero
        + parent_on1);
    assert(digest_input(network2, parent2, script2, bucket2 as int) =~= encode_utf8(network2) + zero
        + parent_on2);
    lemma_split_at_first(
        encode_utf8(network1),
        parent_on1,
        encode_utf8(network2),
        parent_on2,
        0u8,
    );
    lemma_split_at_first(encode_utf8(parent1), script_on1, encode_utf8(parent2), script_on2, 0u8);
    let end = script_on1.len() - 9;
    assert(script_on1.take(end) =~= encode_utf8(script1));
    assert(script_on2.take(end) =~= encode_utf8(script2));
    assert(script_on1.skip(end + 1) =~= number1);
    assert(script_on2.skip(end + 1) =~= number2);
    encode_utf8_decode_utf8(network1);
    encode_utf8_decode_utf8(network2);
    encode_utf8_decode_utf8(parent1);
    encode_utf8_decode_utf8(parent2);
    encode_utf8_decode_utf8(script1);
    encode_utf8_decode_utf8(script2);
    be_bytes_read_back(twos_complement(bucket1 as int));
    be_bytes_read_back(twos_complement(bucket2 as int));
}

/// Buckets with different numbers are digested differently.
pub proof fn buckets_are_told_apart(
    network: Seq<char>,
    parent_hash: Seq<char>,
    payout_script_hex: Seq<char>,
    first: i64,
    second: i64,
)
    requires
        first != second,
    ensures
        digest_input(network, parent_hash, payout_script_hex, first as int) != digest_input(
            network,
            parent_hash,
            payout_script_hex,
            second as int,
        ),
{
    let names = encode_utf8(network) + seq![0u8] + encode_utf8(parent_hash) + seq![0u8]
        + encode_utf8(payout_script_hex) + seq![0u8];
    let one = be_bytes(twos_complement(first as int));
    let two = be_bytes(twos_complement(second as int));
    be_bytes_read_back(twos_complement(first as int));
    be_bytes_read_back(twos_complement(second as int));
    assert((names + one).skip(names.len() as int) =~= one);
    assert((names + two).skip(names.len() as int) =~= two);
}

} // verus!
