//! Queued proofs.

use vstd::arithmetic::power2::{lemma2_to64, pow2};
use vstd::prelude::*;

use crate::payload::{json_text, json_value, proof_payload, queued_proof, QueuedProofError};
use crate::queue::{
    decide, delay_doubles_up_to_a_limit, next_attempt, permanent_rejection, reported_error,
    retry_delay_seconds, Delivery, QueueStep, QUEUE_PAUSE_MS,
};

verus! {

/// The queue is looked into four times a second.
pub proof fn the_queue_is_looked_into_four_times_a_second()
    ensures
        QUEUE_PAUSE_MS * 4 == 1_000,
{
}

/// Another attempt is of no use exactly where the node answered with a client error, other than
/// that the request took too long or that there were too many.
pub proof fn client_errors_are_permanent(status: Option<u16>, permanent: bool)
    requires
        call_ensures(permanent_rejection, (status,), permanent),
    ensures
        permanent <==> status is Some && status->0 / 100 == 4 && status->0 != 408 && status->0
            != 429,
{
}

/// The delay is two seconds at first and doubles with each failed attempt up to the eighth.
pub proof fn delays_are_powers_of_two(attempts: i64, delay: Option<i64>)
    requires
        attempts >= 0,
        call_ensures(retry_delay_seconds, (attempts,), delay),
    ensures
        delay is Some,
        delay->0 == pow2(
            (1 + if attempts < 8 {
                attempts as int
            } else {
                8
            }) as nat,
        ),
        attempts == 0 ==> delay->0 == 2,
        attempts >= 8 ==> delay->0 == 512,
{
    delay_doubles_up_to_a_limit(attempts as nat);
}

/// A negative number of attempts is narrowed to 32 bits, and the delay told where its power of
/// two can be.
pub proof fn delays_of_negative_attempts(attempts: i64, delay: Option<i64>)
    requires
        attempts < 0,
        call_ensures(retry_delay_seconds, (attempts,), delay),
    ensures
        ({
            let exponent = (attempts + 1) % 0x1_0000_0000;
            &&& delay is Some <==> exponent < 63
            &&& delay is Some ==> delay->0 == pow2(exponent as nat)
        }),
{
}

/// The next attempt is after the delay, where that time can be told.
pub proof fn the_next_attempt_is_after_the_delay(
    attempts: i64,
    now: i64,
    delay: Option<i64>,
    time: Option<i64>,
)
    requires
        call_ensures(retry_delay_seconds, (attempts,), delay),
        call_ensures(next_attempt, (attempts, now), time),
    ensures
        time is Some <==> delay is Some && now + delay->0 <= 0x7fff_ffff_ffff_ffff,
        time is Some ==> time->0 == now + delay->0,
{
}

/// A proof that the node took leaves the queue.
pub proof fn accepted_proofs_leave_the_queue(attempts: i64, now: i64, step: QueueStep)
    requires
        call_ensures(decide, (Delivery::Accepted, attempts, now), step),
    ensures
        step is Remove,
{
}

/// A proof that the node refuses for good is given up. Any other one stays, and its next attempt
/// is 2^(1 + attempts) seconds from now, where no more than eight attempts count.
pub proof fn failed_proofs_are_tried_again_later(
    status: Option<u16>,
    attempts: i64,
    now: i64,
    step: QueueStep,
)
    requires
        call_ensures(decide, (Delivery::Failed { status }, attempts, now), step),
        0 <= attempts,
        now <= 0x7fff_ffff_ffff_ffff - 512,
    ensures
        status is Some && 400 <= status->0 <= 499 && status->0 != 408 && status->0 != 429
            ==> step is Discard,
        status is None || status->0 < 400 || status->0 > 499 || status->0 == 408 || status->0 == 429
            ==> step is Retry && step->next_attempt_unix == now + pow2(
            (1 + if attempts < 8 {
                attempts as int
            } else {
                8
            }) as nat,
        ),
{
    delay_doubles_up_to_a_limit(attempts as nat);
}

/// Two calls: a proof that stays is tried again when the next attempt is due, however often it
/// was tried and whatever the time.
pub proof fn proofs_that_stay_wait_for_the_next_attempt(
    status: Option<u16>,
    attempts: i64,
    now: i64,
    step: QueueStep,
    time: Option<i64>,
)
    requires
        call_ensures(decide, (Delivery::Failed { status }, attempts, now), step),
        call_ensures(next_attempt, (attempts, now), time),
        time is Some,
    ensures
        status is Some && status->0 / 100 == 4 && status->0 != 408 && status->0 != 429
            ==> step is Discard,
        status is None || status->0 / 100 != 4 || status->0 == 408 || status->0 == 429
            ==> step is Retry && step->next_attempt_unix == time->0,
{
}

/// Two decisions: after one more failed attempt at the same time the delay is twice as long,
/// until it is 512 seconds.
pub proof fn the_delay_doubles_from_attempt_to_attempt(
    attempts: i64,
    now: i64,
    status: Option<u16>,
    first: QueueStep,
    second: QueueStep,
)
    requires
        0 <= attempts < 0x7fff_ffff_ffff_ffff,
        0 <= now <= 0x7fff_ffff_ffff_ffff - 512,
        status is None || status->0 >= 500,
        call_ensures(decide, (Delivery::Failed { status }, attempts, now), first),
        call_ensures(decide, (Delivery::Failed { status }, (attempts + 1) as i64, now), second),
    ensures
        first is Retry && second is Retry,
        attempts == 0 ==> first->next_attempt_unix == now + 2,
        attempts < 8 ==> second->next_attempt_unix - now == 2 * (first->next_attempt_unix - now),
        attempts >= 8 ==> first->next_attempt_unix == now + 512 && second->next_attempt_unix == now
            + 512,
        now < first->next_attempt_unix <= now + 512,
{
    lemma2_to64();
    delay_doubles_up_to_a_limit(attempts as nat);
    delay_doubles_up_to_a_limit((attempts + 1) as nat);
}

/// Nothing is reported of a proof that was taken. Of one that is given up it is reported that it
/// was dropped, and of one that stays the error itself.
pub proof fn errors_are_reported_until_a_proof_is_taken(
    step: QueueStep,
    error: String,
    reported: Option<String>,
)
    requires
        call_ensures(reported_error, (step, error), reported),
    ensures
        step is Remove ==> reported is None,
        step is Discard ==> reported is Some && reported->0@
            == "permanent proof rejection; dropped from retry queue"@,
        step is Retry ==> reported is Some && reported->0@ == error@,
{
}

/// A proof is kept as its JSON text, and what is taken from the queue is what the text stands
/// for. Text that is not JSON is an error.
pub proof fn proofs_are_kept_as_json(
    proof_value: &serde_json::Value,
    payload: String,
    text: &str,
    taken: Result<serde_json::Value, QueuedProofError>,
)
    requires
        call_ensures(proof_payload, (proof_value,), payload),
        text@ == payload@,
        call_ensures(queued_proof, (text,), taken),
    ensures
        payload@ == json_text(*proof_value),
        match json_value(json_text(*proof_value)) {
            Some(value) => taken is Ok && taken->Ok_0 == value,
            None => taken is Err,
        },
{
}

} // verus!
