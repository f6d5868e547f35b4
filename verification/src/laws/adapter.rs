//! The adapter.

use vstd::prelude::*;

use crate::adapter::{Adapter, PlanEvent, PlanStep};
use crate::config::Config;
use crate::difficulty::{shares_by_bits, Difficulty};
use crate::fee::{fee_bucket, FeeError};
use crate::health::HealthReport;
use crate::hexcodec::is_hex;
use crate::ipc::{IpcData, IpcRequest, IpcResponse, IpcStep};
use crate::metrics::Metrics;
use crate::payload::json_text;
use crate::plan::{PlanError, WorkPlan};
use crate::queue::QueueStep;
use crate::telemetry::{
    lemma_by_miner_at, place_of, sums_by_miner, well_kept, ShareReport, TelemetryAccumulator,
    TelemetryBook, WorkSums,
};
use crate::text::decimal;

verus! {

/// Whether a step answers with an error and a message.
pub open spec fn answers_error(step: IpcStep, message: Seq<char>) -> bool {
    step matches IpcStep::Respond(response) && is_error(response, message)
}

/// Whether a response is an error with a message, in the first version of the schema.
pub open spec fn is_error(response: IpcResponse, told: Seq<char>) -> bool {
    response matches IpcResponse::Error { schema_version, code, message } && schema_version == 1
        && code@ == "request_failed"@ && message@ == told
}

/// A new adapter has its settings and its secret, no plan, no shares, and has counted nothing.
pub proof fn new_adapters_start_empty(config: Config, fee_secret: Vec<u8>, adapter: Adapter)
    requires
        call_ensures(Adapter::new, (config, fee_secret), adapter),
    ensures
        adapter.wf(),
        adapter.config == config,
        adapter.fee_secret@ == fee_secret@,
        adapter.plans.plan is None,
        adapter.plans.updated_unix_ms is None,
        adapter.telemetry.entries@.len() == 0,
        adapter.metrics.plan_updates == 0,
        adapter.metrics.plan_errors == 0,
        adapter.metrics.ipc_requests == 0,
        adapter.metrics.queued_proofs == 0,
        adapter.metrics.submitted_proofs == 0,
        adapter.metrics.failed_proofs == 0,
        adapter.metrics.telemetry_batches == 0,
{
}

/// A plan that validation accepts is taken over, and counted where its name is new. One that it
/// refuses changes nothing. Nothing else changes either way.
pub proof fn arriving_plans_are_installed_and_counted(
    adapter: &mut Adapter,
    plan: WorkPlan,
    now_ms: u128,
    changed: Result<bool, PlanError>,
    verdict: Result<(), PlanError>,
)
    requires
        old(adapter).metrics.plan_updates < 0xffff_ffff_ffff_ffff,
        call_ensures(Adapter::install_plan, (adapter, plan, now_ms), changed),
        call_ensures(WorkPlan::validate, (&plan, &old(adapter).config), verdict),
    ensures
        verdict is Ok <==> changed is Ok,
        verdict is Err ==> changed->Err_0 == verdict->Err_0 && *final(adapter) == *old(adapter),
        verdict is Ok ==> {
            let held = old(adapter).plans.plan;
            let another = held is None || held->0.plan_id@ != plan.plan_id@;
            &&& changed->Ok_0 == another
            &&& final(adapter).plans.updated_unix_ms == Some(now_ms)
            &&& final(adapter).plans.plan == if another {
                Some(plan)
            } else {
                held
            }
            &&& final(adapter).metrics.plan_updates == old(adapter).metrics.plan_updates
                + if another {
                1int
            } else {
                0
            }
            &&& final(adapter).metrics.plan_errors == old(adapter).metrics.plan_errors
            &&& final(adapter).metrics.ipc_requests == old(adapter).metrics.ipc_requests
            &&& final(adapter).metrics.queued_proofs == old(adapter).metrics.queued_proofs
            &&& final(adapter).metrics.submitted_proofs == old(adapter).metrics.submitted_proofs
            &&& final(adapter).metrics.failed_proofs == old(adapter).metrics.failed_proofs
            &&& final(adapter).metrics.telemetry_batches == old(adapter).metrics.telemetry_batches
        },
        final(adapter).config == old(adapter).config,
        final(adapter).fee_secret == old(adapter).fee_secret,
        final(adapter).telemetry == old(adapter).telemetry,
        old(adapter).wf() ==> final(adapter).wf(),
{
}

/// CKPool is told of a plan exactly where it is another one than before and a socket is set, and
/// on that socket.
pub proof fn ckpool_is_told_of_other_plans(
    adapter: &Adapter,
    changed: bool,
    socket: Option<&String>,
)
    requires
        call_ensures(Adapter::socket_to_notify, (adapter, changed), socket),
    ensures
        socket is Some <==> changed && adapter.config.ckpool_notify_socket is Some,
        socket is Some ==> socket->0@ == adapter.config.ckpool_notify_socket->0@,
{
}

/// The stream is followed from the start and after each pause. When it ends, in whatever way, one
/// plan is fetched, and then comes a pause of the set length. Only a plan that could not be
/// fetched is counted, and nothing else changes.
pub proof fn streams_are_followed_and_polls_fill_the_gaps(
    adapter: &mut Adapter,
    event: PlanEvent,
    step: PlanStep,
)
    requires
        event is PollFailed ==> old(adapter).metrics.plan_errors < 0xffff_ffff_ffff_ffff,
        call_ensures(Adapter::next_plan_step, (adapter, event), step),
    ensures
        event is Started || event is Rested ==> step is Stream,
        event is StreamEnded || event is StreamFailed ==> step is Poll,
        event is PollSucceeded || event is PollFailed ==> step is Rest && step->millis == old(
            adapter,
        ).config.poll_interval_ms,
        final(adapter).metrics.plan_errors == old(adapter).metrics.plan_errors
            + if event is PollFailed {
            1int
        } else {
            0
        },
        final(adapter).metrics.plan_updates == old(adapter).metrics.plan_updates,
        final(adapter).metrics.ipc_requests == old(adapter).metrics.ipc_requests,
        final(adapter).metrics.queued_proofs == old(adapter).metrics.queued_proofs,
        final(adapter).metrics.submitted_proofs == old(adapter).metrics.submitted_proofs,
        final(adapter).metrics.failed_proofs == old(adapter).metrics.failed_proofs,
        final(adapter).metrics.telemetry_batches == old(adapter).metrics.telemetry_batches,
        final(adapter).config == old(adapter).config,
        final(adapter).fee_secret == old(adapter).fee_secret,
        final(adapter).plans == old(adapter).plans,
        final(adapter).telemetry == old(adapter).telemetry,
{
}

/// A request is counted once, and nothing else changes.
pub proof fn requests_are_counted(adapter: &mut Adapter)
    requires
        old(adapter).metrics.ipc_requests < 0xffff_ffff_ffff_ffff,
        call_ensures(Adapter::count_request, (adapter,), ()),
    ensures
        final(adapter).metrics == (Metrics {
            ipc_requests: (old(adapter).metrics.ipc_requests + 1) as u64,
            plan_updates: old(adapter).metrics.plan_updates,
            plan_errors: old(adapter).metrics.plan_errors,
            queued_proofs: old(adapter).metrics.queued_proofs,
            submitted_proofs: old(adapter).metrics.submitted_proofs,
            failed_proofs: old(adapter).metrics.failed_proofs,
            telemetry_batches: old(adapter).metrics.telemetry_batches,
        }),
        final(adapter).config == old(adapter).config,
        final(adapter).fee_secret == old(adapter).fee_secret,
        final(adapter).plans == old(adapter).plans,
        final(adapter).telemetry == old(adapter).telemetry,
{
}

/// A request in another version of the schema is answered with an error, whatever it asks for.
pub proof fn other_schemas_are_answered_with_an_error<'a>(
    adapter: &'a Adapter,
    request: IpcRequest,
    now_ms: u128,
    step: IpcStep<'a>,
    version: u32,
)
    requires
        call_ensures(Adapter::process_ipc, (adapter, request, now_ms), step),
        call_ensures(IpcRequest::schema_version, (&request,), version),
        version != 1,
    ensures
        answers_error(step, "unsupported IPC schema "@ + decimal(version as nat)),
{
}

/// A request for the plan gets the plan at hand while it is fresh. Without one it is answered
/// with an error, and beyond the lifetime of the plan with one that tells its age.
pub proof fn plan_requests_get_the_plan<'a>(
    adapter: &'a Adapter,
    now_ms: u128,
    step: IpcStep<'a>,
)
    requires
        call_ensures(
            Adapter::process_ipc,
            (adapter, IpcRequest::GetPlan { schema_version: 1 }, now_ms),
            step,
        ),
    ensures
        adapter.plans.updated_unix_ms is None ==> answers_error(
            step,
            "no valid GridPool work plan"@,
        ),
        adapter.plans.updated_unix_ms matches Some(updated) ==> {
            let age = now_ms - updated;
            let limit = 1_000 * adapter.config.maximum_plan_age_seconds;
            &&& age > limit ==> answers_error(
                step,
                "GridPool work plan is stale ("@ + decimal(age as nat) + " ms old)"@,
            )
            &&& age <= limit && adapter.plans.plan is None ==> answers_error(
                step,
                "no valid GridPool work plan"@,
            )
            &&& age <= limit && adapter.plans.plan is Some ==> (step matches IpcStep::Respond(
                IpcResponse::Success { schema_version, data: IpcData::Plan(plan) },
            ) && schema_version == 1 && *plan == adapter.plans.plan->0)
        },
{
}

/// A fee request is answered with an error while there is no fresh plan, for another parent than
/// the plan's, for a script that is not hexadecimal, and for a fee above the whole.
pub proof fn fee_requests_are_checked_in_order<'a>(
    adapter: &'a Adapter,
    parent_hash: String,
    payout_script_hex: String,
    unix_seconds: i64,
    now_ms: u128,
    step: IpcStep<'a>,
)
    requires
        call_ensures(
            Adapter::process_ipc,
            (
                adapter,
                IpcRequest::FeeDecision {
                    schema_version: 1,
                    parent_hash,
                    payout_script_hex,
                    unix_seconds,
                },
                now_ms,
            ),
            step,
        ),
    ensures
        adapter.plans.updated_unix_ms is None ==> answers_error(
            step,
            "no valid GridPool work plan"@,
        ),
        adapter.plans.updated_unix_ms matches Some(updated) ==> {
            let age = now_ms - updated;
            let limit = 1_000 * adapter.config.maximum_plan_age_seconds;
            let parent = adapter.plans.plan->0.current_tip_block_hash;
            let fresh = age <= limit && adapter.plans.plan is Some;
            let matching = fresh && parent is Some && parent->0@ == parent_hash@;
            &&& age > limit ==> answers_error(
                step,
                "GridPool work plan is stale ("@ + decimal(age as nat) + " ms old)"@,
            )
            &&& age <= limit && adapter.plans.plan is None ==> answers_error(
                step,
                "no valid GridPool work plan"@,
            )
            &&& fresh && !matching ==> answers_error(
                step,
                "fee request parent does not match current plan"@,
            )
            &&& matching && !is_hex(payout_script_hex@) ==> answers_error(
                step,
                "invalid payout script"@,
            )
            &&& matching && is_hex(payout_script_hex@) && adapter.config.fee_basis_points > 10_000
                ==> answers_error(step, "fee basis points exceed 10000"@)
        },
{
}

/// A fee request that passes is answered with what the schedule decides for the plan's network,
/// the parent, the script and the second, under the adapter's secret and fee.
pub proof fn fee_requests_get_the_decision_of_the_schedule<'a>(
    adapter: &'a Adapter,
    parent_hash: String,
    payout_script_hex: String,
    unix_seconds: i64,
    now_ms: u128,
    step: IpcStep<'a>,
    secret: &[u8],
    network: &str,
    parent: &str,
    script: &str,
    decision: Result<(i64, bool), FeeError>,
)
    requires
        call_ensures(
            Adapter::process_ipc,
            (
                adapter,
                IpcRequest::FeeDecision {
                    schema_version: 1,
                    parent_hash,
                    payout_script_hex,
                    unix_seconds,
                },
                now_ms,
            ),
            step,
        ),
        adapter.plans.plan is Some,
        adapter.plans.updated_unix_ms is Some,
        now_ms - adapter.plans.updated_unix_ms->0 <= 1_000
            * adapter.config.maximum_plan_age_seconds,
        adapter.plans.plan->0.current_tip_block_hash is Some,
        adapter.plans.plan->0.current_tip_block_hash->0@ == parent_hash@,
        is_hex(payout_script_hex@),
        adapter.config.fee_basis_points <= 10_000,
        secret@ == adapter.fee_secret@,
        network@ == adapter.plans.plan->0.bitcoin_network@,
        parent@ == parent_hash@,
        script@ == payout_script_hex@,
        call_ensures(
            fee_bucket,
            (secret, network, parent, script, unix_seconds, adapter.config.fee_basis_points),
            decision,
        ),
    ensures
        decision is Ok,
        step matches IpcStep::Respond(
            IpcResponse::Success {
                schema_version,
                data: IpcData::FeeDecision { bucket, bucket_seconds, fee_active, fee_basis_points },
            },
        ) && schema_version == 1 && bucket == decision->Ok_0.0 && bucket_seconds == 10
            && fee_active == decision->Ok_0.1 && fee_basis_points
            == adapter.config.fee_basis_points,
{
}

/// A proof is to be stored as its JSON text, and a batch to be sent on as it is. The state is to
/// be reported where it is asked for.
pub proof fn proofs_are_stored_and_batches_sent_on<'a>(
    adapter: &'a Adapter,
    value: serde_json::Value,
    now_ms: u128,
    stored: IpcStep<'a>,
    posted: IpcStep<'a>,
    reported: IpcStep<'a>,
)
    requires
        call_ensures(
            Adapter::process_ipc,
            (adapter, IpcRequest::SubmitProof { schema_version: 1, proof: value }, now_ms),
            stored,
        ),
        call_ensures(
            Adapter::process_ipc,
            (adapter, IpcRequest::SubmitTelemetry { schema_version: 1, batch: value }, now_ms),
            posted,
        ),
        call_ensures(
            Adapter::process_ipc,
            (adapter, IpcRequest::Health { schema_version: 1 }, now_ms),
            reported,
        ),
    ensures
        stored is QueueProof,
        stored->payload@ == json_text(value),
        posted is PostTelemetry,
        posted->batch == value,
        reported is ReportHealth,
{
}

/// A share that is reported with a finite difficulty that is not below zero is to be recorded, and
/// everything that is recorded of it is what the request says under the same name. With any
/// other difficulty the request is answered with an error.
pub proof fn reported_shares_are_recorded_as_reported<'a>(
    adapter: &'a Adapter,
    channel_id: String,
    payout_address: String,
    username: String,
    accepted: bool,
    difficulty: Difficulty,
    fee_work: bool,
    observed_unix_ms: i64,
    now_ms: u128,
    step: IpcStep<'a>,
)
    requires
        call_ensures(
            Adapter::process_ipc,
            (
                adapter,
                IpcRequest::RecordShare {
                    schema_version: 1,
                    channel_id,
                    payout_address,
                    username,
                    accepted,
                    difficulty,
                    fee_work,
                    observed_unix_ms,
                },
                now_ms,
            ),
            step,
        ),
    ensures
        ({
            let counts = difficulty.bits < 0x7ff0_0000_0000_0000 || difficulty.bits
                == 0x8000_0000_0000_0000;
            &&& counts ==> (step matches IpcStep::RecordShare(share) && {
                &&& share.channel_id@ == channel_id@
                &&& share.payout_address@ == payout_address@
                &&& share.username@ == username@
                &&& share.accepted == accepted
                &&& share.difficulty == difficulty
                &&& share.fee_work == fee_work
                &&& share.observed_unix_ms == observed_unix_ms
            })
            &&& !counts ==> answers_error(step, "invalid telemetry difficulty"@)
        }),
{
    shares_by_bits(difficulty);
}

/// Calls in a row, from the request to the counts: a share that is reported as accepted makes its
/// miner's accepted count greater by one, any other one the rejected count. The accepted work
/// changes for accepted shares only, and the fee work for accepted ones of a fee window only.
pub proof fn reported_shares_count_as_reported<'a>(
    asked: &'a Adapter,
    request: IpcRequest,
    now_ms: u128,
    step: IpcStep<'a>,
    adapter: &mut Adapter,
    sums: WorkSums,
    response: IpcResponse<'static>,
)
    requires
        request is RecordShare,
        call_ensures(Adapter::process_ipc, (asked, request, now_ms), step),
        step is RecordShare,
        old(adapter).wf(),
        call_ensures(Adapter::record_share, (adapter, step->RecordShare_0, sums), response),
        old(adapter).telemetry@.contains_key(step->RecordShare_0.key()) ==> old(
            adapter,
        ).telemetry@[step->RecordShare_0.key()].accepted_shares < 0xffff_ffff_ffff_ffff && old(
            adapter,
        ).telemetry@[step->RecordShare_0.key()].rejected_shares < 0xffff_ffff_ffff_ffff,
    ensures
        match request {
            IpcRequest::RecordShare {
                channel_id,
                payout_address,
                username,
                accepted,
                fee_work,
                ..
            } => {
                let key = channel_id@ + seq!['\0'] + payout_address@ + seq!['\0'] + username@;
                let known = old(adapter).telemetry@.contains_key(key);
                let before = old(adapter).telemetry@[key];
                let after = final(adapter).telemetry@[key];
                &&& final(adapter).telemetry@.contains_key(key)
                &&& after.accepted_shares == (if known {
                    before.accepted_shares as int
                } else {
                    0
                }) + if accepted {
                    1int
                } else {
                    0
                }
                &&& after.rejected_shares == (if known {
                    before.rejected_shares as int
                } else {
                    0
                }) + if accepted {
                    0int
                } else {
                    1
                }
                &&& after.accepted_difficulty.bits == if accepted {
                    sums.accepted.bits
                } else if known {
                    before.accepted_difficulty.bits
                } else {
                    0
                }
                &&& after.fee_difficulty.bits == if accepted && fee_work {
                    sums.fee.bits
                } else if known {
                    before.fee_difficulty.bits
                } else {
                    0
                }
            },
            _ => false,
        },
        response matches IpcResponse::Success { schema_version, data: IpcData::Recorded }
            && schema_version == 1,
        final(adapter).metrics == old(adapter).metrics,
        final(adapter).plans == old(adapter).plans,
        final(adapter).config == old(adapter).config,
        final(adapter).fee_secret == old(adapter).fee_secret,
        final(adapter).wf(),
{
}

/// A proof that was stored is counted and confirmed. Where storing failed the request is answered
/// with the error, and nothing is counted.
pub proof fn stored_proofs_are_counted(
    adapter: &mut Adapter,
    stored: Result<(), String>,
    response: IpcResponse<'static>,
)
    requires
        old(adapter).metrics.queued_proofs < 0xffff_ffff_ffff_ffff,
        call_ensures(Adapter::proof_queued, (adapter, stored), response),
    ensures
        stored is Ok ==> (response matches IpcResponse::Success {
            schema_version,
            data: IpcData::Queued,
        } && schema_version == 1),
        stored is Err ==> is_error(response, stored->Err_0@) && *final(adapter) == *old(adapter),
        final(adapter).metrics == (Metrics {
            queued_proofs: (old(adapter).metrics.queued_proofs + if stored is Ok {
                1int
            } else {
                0
            }) as u64,
            plan_updates: old(adapter).metrics.plan_updates,
            plan_errors: old(adapter).metrics.plan_errors,
            ipc_requests: old(adapter).metrics.ipc_requests,
            submitted_proofs: old(adapter).metrics.submitted_proofs,
            failed_proofs: old(adapter).metrics.failed_proofs,
            telemetry_batches: old(adapter).metrics.telemetry_batches,
        }),
        final(adapter).config == old(adapter).config,
        final(adapter).fee_secret == old(adapter).fee_secret,
        final(adapter).plans == old(adapter).plans,
        final(adapter).telemetry == old(adapter).telemetry,
{
}

/// A batch that was sent is counted and confirmed. Where sending failed the request is answered
/// with the error, and nothing is counted.
pub proof fn sent_batches_are_counted(
    adapter: &mut Adapter,
    sent: Result<(), String>,
    response: IpcResponse<'static>,
)
    requires
        old(adapter).metrics.telemetry_batches < 0xffff_ffff_ffff_ffff,
        call_ensures(Adapter::telemetry_posted, (adapter, sent), response),
    ensures
        sent is Ok ==> (response matches IpcResponse::Success {
            schema_version,
            data: IpcData::TelemetryAccepted,
        } && schema_version == 1),
        sent is Err ==> is_error(response, sent->Err_0@) && *final(adapter) == *old(adapter),
        final(adapter).metrics == (Metrics {
            telemetry_batches: (old(adapter).metrics.telemetry_batches + if sent is Ok {
                1int
            } else {
                0
            }) as u64,
            plan_updates: old(adapter).metrics.plan_updates,
            plan_errors: old(adapter).metrics.plan_errors,
            ipc_requests: old(adapter).metrics.ipc_requests,
            queued_proofs: old(adapter).metrics.queued_proofs,
            submitted_proofs: old(adapter).metrics.submitted_proofs,
            failed_proofs: old(adapter).metrics.failed_proofs,
        }),
        final(adapter).config == old(adapter).config,
        final(adapter).fee_secret == old(adapter).fee_secret,
        final(adapter).plans == old(adapter).plans,
        final(adapter).telemetry == old(adapter).telemetry,
{
}

/// A batch of gathered shares that was sent is counted, and nothing else changes. One that was not
/// sent is put back and not counted: of a miner of whom nothing came in since the entry is there
/// as it was, and of any other miner the counts are those of both together.
pub proof fn flushes_are_counted_or_put_back(
    adapter: &mut Adapter,
    sent: bool,
    pending: Vec<TelemetryAccumulator>,
    sums: Vec<WorkSums>,
    i: int,
)
    requires
        old(adapter).metrics.telemetry_batches < 0xffff_ffff_ffff_ffff,
        old(adapter).telemetry.wf(),
        well_kept(pending@),
        sums@.len() == pending@.len(),
        old(adapter).telemetry.has_room_for_pending(pending@),
        call_ensures(Adapter::flush_settled, (adapter, sent, pending, sums), ()),
        0 <= i < pending@.len(),
    ensures
        ({
            let back = pending@[i];
            let key = back.channel_id@ + seq!['\0'] + back.payout_address@ + seq!['\0']
                + back.username@;
            let known = old(adapter).telemetry@.contains_key(key);
            let since = old(adapter).telemetry@[key];
            let after = final(adapter).telemetry@[key];
            &&& sent ==> final(adapter).telemetry == old(adapter).telemetry
            &&& !sent ==> final(adapter).telemetry@.contains_key(key)
            &&& !sent && !known ==> after == back
            &&& !sent && known ==> after.accepted_shares == since.accepted_shares
                + back.accepted_shares && after.rejected_shares == since.rejected_shares
                + back.rejected_shares && after.accepted_difficulty == sums@[i].accepted
                && after.fee_difficulty == sums@[i].fee
        }),
        final(adapter).metrics == (Metrics {
            telemetry_batches: (old(adapter).metrics.telemetry_batches + if sent {
                1int
            } else {
                0
            }) as u64,
            plan_updates: old(adapter).metrics.plan_updates,
            plan_errors: old(adapter).metrics.plan_errors,
            ipc_requests: old(adapter).metrics.ipc_requests,
            queued_proofs: old(adapter).metrics.queued_proofs,
            submitted_proofs: old(adapter).metrics.submitted_proofs,
            failed_proofs: old(adapter).metrics.failed_proofs,
        }),
        final(adapter).config == old(adapter).config,
        final(adapter).fee_secret == old(adapter).fee_secret,
        final(adapter).plans == old(adapter).plans,
{
    let key = pending@[i].key();
    lemma_by_miner_at(pending@, i);
    assert(place_of(pending@, key) == i);
    assert(sums_by_miner(pending@, sums@)[key] == sums@[i]);
    if old(adapter).telemetry@.contains_key(key) {
        assert(old(adapter).telemetry@[key].has_room_for_all_of(pending@[i]));
    }
}

/// Two calls: a batch that was not sent is put back as the book of shares does it, and none of
/// the counts changes. One that was sent makes its count greater by one and leaves the book as it
/// is.
pub proof fn settled_flushes_leave_the_rest_alone(
    adapter: &mut Adapter,
    sent: bool,
    pending: Vec<TelemetryAccumulator>,
    sums: Vec<WorkSums>,
    book: &mut TelemetryBook,
)
    requires
        old(adapter).metrics.telemetry_batches < 0xffff_ffff_ffff_ffff,
        call_ensures(Adapter::flush_settled, (adapter, sent, pending, sums), ()),
        *old(book) == old(adapter).telemetry,
        call_ensures(TelemetryBook::restore, (book, pending, sums), ()),
    ensures
        sent ==> final(adapter).telemetry == old(adapter).telemetry,
        !sent ==> final(adapter).telemetry@ == final(book)@,
        final(adapter).metrics.telemetry_batches == old(adapter).metrics.telemetry_batches
            + if sent {
            1int
        } else {
            0
        },
        final(adapter).metrics.plan_updates == old(adapter).metrics.plan_updates,
        final(adapter).metrics.plan_errors == old(adapter).metrics.plan_errors,
        final(adapter).metrics.ipc_requests == old(adapter).metrics.ipc_requests,
        final(adapter).metrics.queued_proofs == old(adapter).metrics.queued_proofs,
        final(adapter).metrics.submitted_proofs == old(adapter).metrics.submitted_proofs,
        final(adapter).metrics.failed_proofs == old(adapter).metrics.failed_proofs,
        final(adapter).config == old(adapter).config,
        final(adapter).fee_secret == old(adapter).fee_secret,
        final(adapter).plans == old(adapter).plans,
        old(adapter).wf() ==> final(adapter).wf(),
{
}

/// Two calls: a share is recorded as the book of shares does it.
pub proof fn shares_are_recorded_in_the_book(
    adapter: &mut Adapter,
    share: ShareReport,
    sums: WorkSums,
    response: IpcResponse<'static>,
    book: &mut TelemetryBook,
)
    requires
        call_ensures(Adapter::record_share, (adapter, share, sums), response),
        *old(book) == old(adapter).telemetry,
        call_ensures(TelemetryBook::record, (book, share, sums), ()),
    ensures
        final(adapter).telemetry@ == final(book)@,
        final(adapter).telemetry.wf(),
{
}

/// A proof that the node took counts as submitted, and any other attempt as failed.
pub proof fn deliveries_are_counted(adapter: &mut Adapter, step: QueueStep)
    requires
        old(adapter).metrics.submitted_proofs < 0xffff_ffff_ffff_ffff,
        old(adapter).metrics.failed_proofs < 0xffff_ffff_ffff_ffff,
        call_ensures(Adapter::delivery_settled, (adapter, step), ()),
    ensures
        final(adapter).metrics == (Metrics {
            submitted_proofs: (old(adapter).metrics.submitted_proofs + if step is Remove {
                1int
            } else {
                0
            }) as u64,
            failed_proofs: (old(adapter).metrics.failed_proofs + if step is Remove {
                0int
            } else {
                1
            }) as u64,
            plan_updates: old(adapter).metrics.plan_updates,
            plan_errors: old(adapter).metrics.plan_errors,
            ipc_requests: old(adapter).metrics.ipc_requests,
            queued_proofs: old(adapter).metrics.queued_proofs,
            telemetry_batches: old(adapter).metrics.telemetry_batches,
        }),
        final(adapter).config == old(adapter).config,
        final(adapter).fee_secret == old(adapter).fee_secret,
        final(adapter).plans == old(adapter).plans,
        final(adapter).telemetry == old(adapter).telemetry,
{
}

/// The state that is reported is the adapter's own: whether it hands out a plan, the plan's name,
/// snapshot and parent, when it arrived, its age and lifetime, the depth of the queue, the fee
/// and the counts.
pub proof fn the_state_is_reported(
    adapter: &Adapter,
    queue_depth: Option<i64>,
    now_ms: u128,
    report: HealthReport,
)
    requires
        call_ensures(Adapter::health_value, (adapter, queue_depth, now_ms), report),
    ensures
        report.status@ == if adapter.plans.plan is Some && adapter.plans.updated_unix_ms is Some
            && now_ms - adapter.plans.updated_unix_ms->0 <= 1_000
            * adapter.config.maximum_plan_age_seconds {
            "ready"@
        } else {
            "waiting-for-plan"@
        },
        report.ipc_schema_version == 1,
        adapter.plans.plan is None ==> report.plan_id is None && report.active_snapshot_id is None
            && report.parent_hash is None,
        adapter.plans.plan matches Some(plan) ==> {
            &&& report.plan_id is Some && report.plan_id->0@ == plan.plan_id@
            &&& report.active_snapshot_id is Some && report.active_snapshot_id->0@
                == plan.active_snapshot_id@
            &&& report.parent_hash == plan.current_tip_block_hash
        },
        report.plan_updated_unix_ms == adapter.plans.updated_unix_ms,
        report.plan_age_ms is Some <==> adapter.plans.updated_unix_ms is Some,
        report.plan_age_ms is Some ==> report.plan_age_ms->0 == if now_ms
            < adapter.plans.updated_unix_ms->0 {
            0
        } else {
            now_ms - adapter.plans.updated_unix_ms->0
        },
        report.maximum_plan_age_seconds == adapter.config.maximum_plan_age_seconds,
        queue_depth is Some ==> report.queue_depth == queue_depth->0,
        queue_depth is None ==> report.queue_depth == -1,
        report.fee_basis_points == adapter.config.fee_basis_points,
        report.metrics == adapter.metrics,
{
}

/// Two calls: a request for the state is granted the same state that is reported elsewhere.
pub proof fn state_requests_get_the_state(
    adapter: &Adapter,
    queue_depth: Option<i64>,
    now_ms: u128,
    response: IpcResponse<'static>,
    report: HealthReport,
)
    requires
        call_ensures(Adapter::health_response, (adapter, queue_depth, now_ms), response),
        call_ensures(Adapter::health_value, (adapter, queue_depth, now_ms), report),
    ensures
        response matches IpcResponse::Success { schema_version, data: IpcData::Health(granted) } && {
            &&& schema_version == 1
            &&& granted.status@ == report.status@
            &&& granted.ipc_schema_version == report.ipc_schema_version
            &&& granted.plan_id == report.plan_id
            &&& granted.active_snapshot_id == report.active_snapshot_id
            &&& granted.parent_hash == report.parent_hash
            &&& granted.plan_updated_unix_ms == report.plan_updated_unix_ms
            &&& granted.plan_age_ms == report.plan_age_ms
            &&& granted.maximum_plan_age_seconds == report.maximum_plan_age_seconds
            &&& granted.queue_depth == report.queue_depth
            &&& granted.fee_basis_points == report.fee_basis_points
            &&& granted.metrics == report.metrics
        },
{
}

/// Two calls: the adapter says that it is ready exactly when a request for the plan gets one.
pub proof fn ready_adapters_hand_out_a_plan<'a>(
    adapter: &'a Adapter,
    queue_depth: Option<i64>,
    now_ms: u128,
    report: HealthReport,
    step: IpcStep<'a>,
)
    requires
        call_ensures(Adapter::health_value, (adapter, queue_depth, now_ms), report),
        call_ensures(
            Adapter::process_ipc,
            (adapter, IpcRequest::GetPlan { schema_version: 1 }, now_ms),
            step,
        ),
    ensures
        report.status@ == "ready"@ <==> (step matches IpcStep::Respond(response)
            && response is Success),
{
    reveal_strlit("ready");
    reveal_strlit("waiting-for-plan");
    assert("ready"@.len() != "waiting-for-plan"@.len());
}

/// A share that is recorded is confirmed, and the entries of other miners stay as they are.
pub proof fn recorded_shares_are_confirmed(
    adapter: &mut Adapter,
    share: ShareReport,
    sums: WorkSums,
    response: IpcResponse<'static>,
    other: Seq<char>,
)
    requires
        call_ensures(Adapter::record_share, (adapter, share, sums), response),
    ensures
        response matches IpcResponse::Success { schema_version, data: IpcData::Recorded }
            && schema_version == 1,
        ({
            let before = old(adapter).telemetry@;
            let after = final(adapter).telemetry@;
            other != share.channel_id@ + seq!['\0'] + share.payout_address@ + seq!['\0']
                + share.username@ ==> after.contains_key(other) == before.contains_key(other) && (
            before.contains_key(other) ==> after[other] == before[other])
        }),
{
}

} // verus!
