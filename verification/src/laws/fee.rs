//! Fee decisions.

use vstd::prelude::*;
use vstd::utf8::encode_utf8;

use crate::fee::{
    be_bytes, be_value, bucket_of, digest_input, fee_bucket, fee_is_active, fee_message,
    fee_selected, hmac_sha256_tag, sample_of, signed_be_bytes, twos_complement, FeeError,
};

verus! {

proof fn lemma_first_eight(tag: Seq<u8>)
    requires
        tag.len() >= 8,
    ensures
        sample_of(tag) == tag[0] * 0x100_0000_0000_0000 + tag[1] * 0x1_0000_0000_0000 + tag[2]
            * 0x100_0000_0000 + tag[3] * 0x1_0000_0000 + tag[4] * 0x100_0000 + tag[5] * 0x1_0000
            + tag[6] * 0x100 + tag[7],
{
    let t = tag.take(8);
    reveal_with_fuel(be_value, 9);
    assert(t.drop_last() =~= tag.take(7));
    assert(tag.take(7).drop_last() =~= tag.take(6));
    assert(tag.take(6).drop_last() =~= tag.take(5));
    assert(tag.take(5).drop_last() =~= tag.take(4));
    assert(tag.take(4).drop_last() =~= tag.take(3));
    assert(tag.take(3).drop_last() =~= tag.take(2));
    assert(tag.take(2).drop_last() =~= tag.take(1));
    assert(tag.take(1).drop_last() =~= tag.take(0));
}

/// A digest selects its bucket exactly when its first eight bytes, as a number in big-endian
/// order, leave a rest below the basis points when divided by ten thousand.
pub proof fn digest_selects_by_its_first_eight_bytes(
    tag: &[u8],
    basis_points: u16,
    selected: bool,
)
    requires
        tag@.len() >= 8,
        call_ensures(fee_selected, (tag, basis_points), selected),
    ensures
        selected <==> (tag@[0] * 0x100_0000_0000_0000 + tag@[1] * 0x1_0000_0000_0000 + tag@[2]
            * 0x100_0000_0000 + tag@[3] * 0x1_0000_0000 + tag@[4] * 0x100_0000 + tag@[5] * 0x1_0000
            + tag@[6] * 0x100 + tag@[7]) % 10_000 < basis_points,
{
    lemma_first_eight(tag@);
}

/// The bytes of a signed number are eight. Read in big-endian order they give the number, or for
/// one below zero the number and 2^64.
pub proof fn signed_numbers_are_written_in_twos_complement(n: i64, bytes: Vec<u8>)
    requires
        call_ensures(signed_be_bytes, (n,), bytes),
    ensures
        bytes@.len() == 8,
        bytes@[0] * 0x100_0000_0000_0000 + bytes@[1] * 0x1_0000_0000_0000 + bytes@[2]
            * 0x100_0000_0000 + bytes@[3] * 0x1_0000_0000 + bytes@[4] * 0x100_0000 + bytes@[5]
            * 0x1_0000 + bytes@[6] * 0x100 + bytes@[7] == if n < 0 {
            n + 0x1_0000_0000_0000_0000
        } else {
            n as int
        },
{
    lemma_first_eight(bytes@);
    assert(bytes@.take(8) =~= bytes@);
    crate::fee::be_bytes_read_back(twos_complement(n as int));
}

/// What is digested is the network, the parent and the script, each followed by a zero byte, and
/// the eight bytes of the bucket.
pub proof fn digested_are_the_names_and_the_bucket(
    network: &str,
    parent: &str,
    script: &str,
    bucket: i64,
    message: Vec<u8>,
    number: Vec<u8>,
)
    requires
        call_ensures(fee_message, (network, parent, script, bucket), message),
        call_ensures(signed_be_bytes, (bucket,), number),
    ensures
        message@ == encode_utf8(network@) + seq![0u8] + encode_utf8(parent@) + seq![0u8]
            + encode_utf8(script@) + seq![0u8] + number@,
{
}

/// Basis points above ten thousand are refused and all others decided on. A decision names the
/// bucket of ten seconds that the second lies in, and says whether the first eight bytes of the
/// keyed digest of network, parent, script and bucket, as a number in big-endian order, leave a
/// rest below the basis points when divided by ten thousand.
pub proof fn fee_is_drawn_from_the_keyed_digest(
    secret: &[u8],
    network: &str,
    parent: &str,
    script: &str,
    unix_seconds: i64,
    basis_points: u16,
    decision: Result<(i64, bool), FeeError>,
)
    requires
        call_ensures(
            fee_bucket,
            (secret, network, parent, script, unix_seconds, basis_points),
            decision,
        ),
    ensures
        basis_points > 10_000 ==> decision == Err::<(i64, bool), FeeError>(
            FeeError::BasisPointsTooLarge,
        ),
        basis_points <= 10_000 ==> decision is Ok && ({
            let (bucket, active) = decision->Ok_0;
            let n = if bucket < 0 {
                bucket + 0x1_0000_0000_0000_0000
            } else {
                bucket as int
            };
            let number = seq![
                (n / 0x100_0000_0000_0000 % 256) as u8,
                (n / 0x1_0000_0000_0000 % 256) as u8,
                (n / 0x100_0000_0000 % 256) as u8,
                (n / 0x1_0000_0000 % 256) as u8,
                (n / 0x100_0000 % 256) as u8,
                (n / 0x1_0000 % 256) as u8,
                (n / 0x100 % 256) as u8,
                (n % 256) as u8,
            ];
            let tag = hmac_sha256_tag(
                secret@,
                encode_utf8(network@) + seq![0u8] + encode_utf8(parent@) + seq![0u8] + encode_utf8(
                    script@,
                ) + seq![0u8] + number,
            );
            &&& 10 * bucket <= unix_seconds < 10 * bucket + 10
            &&& tag.len() == 32
            &&& active <==> (tag[0] * 0x100_0000_0000_0000 + tag[1] * 0x1_0000_0000_0000 + tag[2]
                * 0x100_0000_0000 + tag[3] * 0x1_0000_0000 + tag[4] * 0x100_0000 + tag[5]
                * 0x1_0000 + tag[6] * 0x100 + tag[7]) % 10_000 < basis_points
        }),
{
    if basis_points <= 10_000 {
        let bucket = decision->Ok_0.0 as int;
        lemma_first_eight(
            hmac_sha256_tag(secret@, digest_input(network@, parent@, script@, bucket)),
        );
    }
}

/// Whether a second is in a fee window is the same rule wherever it is asked: the rest of the
/// drawn number by ten thousand is below the basis points.
pub proof fn fee_windows_are_drawn(
    secret: Seq<u8>,
    network: Seq<char>,
    parent: Seq<char>,
    script: Seq<char>,
    unix_seconds: int,
    basis_points: int,
)
    ensures
        ({
            let tag = hmac_sha256_tag(
                secret,
                encode_utf8(network) + seq![0u8] + encode_utf8(parent) + seq![0u8] + encode_utf8(
                    script,
                ) + seq![0u8] + be_bytes(twos_complement(unix_seconds / 10)),
            );
            tag.len() >= 8 ==> (fee_is_active(
                secret,
                network,
                parent,
                script,
                unix_seconds,
                basis_points,
            ) <==> (tag[0] * 0x100_0000_0000_0000 + tag[1] * 0x1_0000_0000_0000 + tag[2]
                * 0x100_0000_0000 + tag[3] * 0x1_0000_0000 + tag[4] * 0x100_0000 + tag[5]
                * 0x1_0000 + tag[6] * 0x100 + tag[7]) % 10_000 < basis_points)
        }),
        !fee_is_active(secret, network, parent, script, unix_seconds, 0),
        fee_is_active(secret, network, parent, script, unix_seconds, 10_000),
{
    let tag = hmac_sha256_tag(
        secret,
        digest_input(network, parent, script, bucket_of(unix_seconds)),
    );
    if tag.len() >= 8 {
        lemma_first_eight(tag);
    }
}

/// Without a fee no second of any miner is in a fee window.
pub proof fn no_fee_means_no_window(
    secret: &[u8],
    network: &str,
    parent: &str,
    script: &str,
    unix_seconds: i64,
    decision: Result<(i64, bool), FeeError>,
)
    requires
        call_ensures(fee_bucket, (secret, network, parent, script, unix_seconds, 0), decision),
    ensures
        decision is Ok,
        !decision->Ok_0.1,
{
    fee_windows_are_drawn(secret@, network@, parent@, script@, unix_seconds as int, 0);
}

/// With the whole as fee every second of every miner is in a fee window.
pub proof fn the_whole_as_fee_means_every_window(
    secret: &[u8],
    network: &str,
    parent: &str,
    script: &str,
    unix_seconds: i64,
    decision: Result<(i64, bool), FeeError>,
)
    requires
        call_ensures(
            fee_bucket,
            (secret, network, parent, script, unix_seconds, 10_000),
            decision,
        ),
    ensures
        decision is Ok,
        decision->Ok_0.1,
{
    fee_windows_are_drawn(secret@, network@, parent@, script@, unix_seconds as int, 10_000);
}

/// Of two decisions for one miner in the same ten seconds, the one under the higher fee is a fee
/// window wherever the other is. Under the same fee both are the same.
pub proof fn decisions_in_one_bucket_agree(
    secret: &[u8],
    network: &str,
    parent: &str,
    script: &str,
    first_second: i64,
    second_second: i64,
    lower: u16,
    higher: u16,
    first: Result<(i64, bool), FeeError>,
    second: Result<(i64, bool), FeeError>,
)
    requires
        first_second as int / 10 == second_second as int / 10,
        lower <= higher <= 10_000,
        call_ensures(fee_bucket, (secret, network, parent, script, first_second, lower), first),
        call_ensures(fee_bucket, (secret, network, parent, script, second_second, higher), second),
    ensures
        first is Ok && second is Ok,
        first->Ok_0.0 == second->Ok_0.0,
        first->Ok_0.1 ==> second->Ok_0.1,
        lower == higher ==> first == second,
{
    fee_is_drawn_from_the_keyed_digest(secret, network, parent, script, first_second, lower, first);
    fee_is_drawn_from_the_keyed_digest(
        secret,
        network,
        parent,
        script,
        second_second,
        higher,
        second,
    );
}

/// The messages of the errors.
pub proof fn fee_errors_are_told(error: &FeeError, message: &'static str)
    requires
        call_ensures(FeeError::message, (error,), message),
    ensures
        error is BasisPointsTooLarge ==> message@ == "fee basis points exceed 10000"@,
        error is InvalidSecret ==> message@ == "invalid fee secret"@,
        message@ == error.text(),
{
}

} // verus!
