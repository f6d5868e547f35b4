//! Share proofs that wait for the node, and what becomes of one after an attempt to deliver it.

use vstd::arithmetic::power2::{lemma_pow2_strictly_increases, lemma_pow2_unfold, pow2};
use vstd::prelude::*;

verus! {

/// The pause between two looks into the queue, in milliseconds.
pub const QUEUE_PAUSE_MS: u64 = 250;

/// The number of failed attempts from which on the delay stays the same.
pub const MOST_COUNTED_ATTEMPTS: i64 = 8;

/// How an attempt to deliver a proof went.
#[derive(Debug, Clone, Copy, PartialEq, Eq, Structural)]
pub enum Delivery {
    /// The node took the proof.
    Accepted,
    /// It did not, with an HTTP status where it answered with one.
    Failed { status: Option<u16> },
}

/// What becomes of a proof.
#[derive(Debug, Clone, Copy, PartialEq, Eq, Structural)]
pub enum QueueStep {
    /// It leaves the queue because the node has it.
    Remove,
    /// It leaves the queue because the node will never take it.
    Discard,
    /// It stays, and is not tried again before a time in seconds since the epoch.
    Retry { next_attempt_unix: i64 },
}

/// Whether a status says that another attempt is of no use: the request is at fault, and
/// neither slow nor one of too many.
pub open spec fn is_permanent(status: Option<u16>) -> bool {
    &&& status is Some
    &&& 400 <= status->0 <= 499
    &&& status->0 != 408
    &&& status->0 != 429
}

/// The power of two of the delay after so many failed attempts. The number of attempts is
/// narrowed to 32 bits, which matters only where it is negative.
pub open spec fn retry_exponent(attempts: int) -> int {
    ((if attempts < MOST_COUNTED_ATTEMPTS {
        attempts
    } else {
        MOST_COUNTED_ATTEMPTS as int
    }) + 1) % 0x1_0000_0000
}

/// The delay before the next attempt in seconds.
pub open spec fn retry_delay(attempts: int) -> nat {
    pow2(retry_exponent(attempts) as nat)
}

/// Whether the time of the next attempt can be told.
pub open spec fn can_be_scheduled(attempts: int, now: int) -> bool {
    retry_exponent(attempts) <= 62 && now + retry_delay(attempts) <= i64::MAX
}

/// What becomes of a proof after an attempt.
pub open spec fn next_step(delivery: Delivery, attempts: int, now: int) -> QueueStep {
    match delivery {
        Delivery::Accepted => QueueStep::Remove,
        Delivery::Failed { status } => if is_permanent(status) {
            QueueStep::Discard
        } else {
            QueueStep::Retry { next_attempt_unix: (now + retry_delay(attempts)) as i64 }
        },
    }
}

/// Tells whether a status says that another attempt is of no use.
pub fn permanent_rejection(status: Option<u16>) -> (permanent: bool)
    ensures
        permanent == is_permanent(status),
{
    match status {
        Some(code) => 400 <= code && code <= 499 && code != 408 && code != 429,
        None => false,
    }
}

/// Returns the delay before the next attempt, if it can be told.
pub fn retry_delay_seconds(attempts: i64) -> (delay: Option<i64>)
    ensures
        delay is Some <==> retry_exponent(attempts as int) <= 62,
        delay is Some ==> delay->0 == retry_delay(attempts as int),
{
    let counted: i64 = if attempts < MOST_COUNTED_ATTEMPTS {
        attempts
    } else {
        MOST_COUNTED_ATTEMPTS
    };
    let exponent: i64 = match (counted + 1).checked_rem_euclid(0x1_0000_0000) {
        Some(exponent) => exponent,
        None => 0,
    };
    if exponent > 62 {
        return None;
    }
    let mut delay: i64 = 1;
    let mut i: i64 = 0;
    proof {
        vstd::arithmetic::power2::lemma2_to64();
        vstd::arithmetic::power2::lemma2_to64_rest();
    }
    while i < exponent
        invariant
            0 <= i <= exponent <= 62,
            delay == pow2(i as nat),
            pow2(62) == 0x4000_0000_0000_0000,
        decreases exponent - i,
    {
        proof {
            lemma_pow2_unfold((i + 1) as nat);
            if i + 1 < 62 {
                lemma_pow2_strictly_increases((i + 1) as nat, 62);
            }
        }
        delay = delay * 2;
        i = i + 1;
    }
    Some(delay)
}

/// Returns the time of the next attempt after `attempts` failed attempts and one more at `now`,
/// if it can be told.
pub fn next_attempt(attempts: i64, now: i64) -> (time: Option<i64>)
    ensures
        time is Some <==> can_be_scheduled(attempts as int, now as int),
        time is Some ==> time->0 == now + retry_delay(attempts as int),
{
    match retry_delay_seconds(attempts) {
        Some(delay) => now.checked_add(delay),
        None => None,
    }
}

/// Decides what becomes of a proof after `attempts` failed attempts and one more at `now`.
pub fn decide(delivery: Delivery, attempts: i64, now: i64) -> (step: QueueStep)
    requires
        delivery matches Delivery::Failed { status } ==> is_permanent(status) || can_be_scheduled(
            attempts as int,
            now as int,
        ),
    ensures
        step == next_step(delivery, attempts as int, now as int),
{
    match delivery {
        Delivery::Accepted => QueueStep::Remove,
        Delivery::Failed { status } => {
            if permanent_rejection(status) {
                return QueueStep::Discard;
            }
            QueueStep::Retry { next_attempt_unix: next_attempt(attempts, now).unwrap() }
        },
    }
}

/// Returns the error that is reported of an attempt, given the error that it ended with.
pub fn reported_error(step: QueueStep, error: String) -> (reported: Option<String>)
    ensures
        match step {
            QueueStep::Remove => reported is None,
            QueueStep::Discard => reported is Some && reported->0@
                == "permanent proof rejection; dropped from retry queue"@,
            QueueStep::Retry { .. } => reported == Some(error),
        },
{
    match step {
        QueueStep::Remove => None,
        QueueStep::Discard => Some(
            "permanent proof rejection; dropped from retry queue".to_owned(),
        ),
        QueueStep::Retry { .. } => Some(error),
    }
}

/// A proof leaves the queue only when the node took it or will never take it.
pub proof fn proof_stays_until_settled(delivery: Delivery, attempts: int, now: int)
    ensures
        next_step(delivery, attempts, now) is Remove <==> delivery is Accepted,
        next_step(delivery, attempts, now) is Discard <==> delivery is Failed && is_permanent(
            delivery->status,
        ),
{
}

/// No answer, a server's fault, a slow request and one of too many are all tried again.
pub proof fn passing_faults_are_retried(status: Option<u16>)
    requires
        status is None || status->0 >= 500 || status->0 == 408 || status->0 == 429,
    ensures
        !is_permanent(status),
{
}

/// The delay starts at two seconds, doubles with each failed attempt and stays at 512 seconds
/// from the eighth on.
pub proof fn delay_doubles_up_to_a_limit(attempts: nat)
    ensures
        retry_delay(0) == 2,
        attempts < 8 ==> retry_delay((attempts + 1) as int) == 2 * retry_delay(attempts as int),
        attempts >= 8 ==> retry_delay(attempts as int) == 512,
        2 <= retry_delay(attempts as int) <= 512,
        retry_delay(attempts as int) <= retry_delay((attempts + 1) as int),
{
    vstd::arithmetic::power2::lemma2_to64();
    let counted = if attempts < 8 {
        attempts
    } else {
        8
    };
    assert(retry_exponent(attempts as int) == counted + 1);
    if attempts < 8 {
        lemma_pow2_unfold((attempts + 2) as nat);
        assert(retry_exponent((attempts + 1) as int) == attempts + 2);
        if attempts + 1 < 9 {
            lemma_pow2_strictly_increases((attempts + 1) as nat, 9);
        }
        if 1 < attempts + 1 {
            lemma_pow2_strictly_increases(1, (attempts + 1) as nat);
        }
    }
}

} // verus!
