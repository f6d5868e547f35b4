//! Payout plans.

use vstd::prelude::*;
use vstd::utf8::encode_utf8;

use crate::cache::{PlanCache, PlanUnavailable};
use crate::config::Config;
use crate::difficulty::pulses_by_bits;
use crate::hexcodec::{hex_bytes, is_hex};
use crate::plan::{listed_bytes, CoinbaseOutput, PlanError, WorkPlan};
use crate::text::{decimal, signed_decimal};
use crate::wire::{parse_tx_output_vector, read_compact_size, WireError};

verus! {

/// A plan that is accepted speaks the first version of the schema, is for the expected networks,
/// of a protocol not below the required one, and vouched for. It has a hash as its name, names a
/// snapshot and a parent block, and its pulse difficulty is finite and at least one.
pub proof fn accepted_plans_are_fit_for_mining(
    plan: &WorkPlan,
    config: &Config,
    verdict: Result<(), PlanError>,
)
    requires
        call_ensures(WorkPlan::validate, (plan, config), verdict),
        verdict is Ok,
    ensures
        plan.schema_version == 1,
        plan.network_id@ == config.expected_network_id@,
        plan.bitcoin_network@ == config.expected_bitcoin_network@,
        plan.protocol_version >= config.minimum_protocol_version,
        plan.mining_work_safe,
        encode_utf8(plan.plan_id@).len() == 64,
        is_hex(plan.plan_id@),
        plan.active_snapshot_id@.len() > 0,
        plan.current_tip_block_hash is Some,
        encode_utf8(plan.current_tip_block_hash->0@).len() == 64,
        0x3ff0_0000_0000_0000 <= plan.minimum_pulse_difficulty.bits < 0x7ff0_0000_0000_0000,
        is_hex(plan.coinbase_tx_outputs_hex@),
        hex_bytes(plan.coinbase_tx_outputs_hex@).len() == plan.coinbase_tx_outputs_bytes,
        plan.coinbase_outputs@.len() == plan.coinbase_output_count,
        forall|i: int|
            0 <= i < plan.coinbase_outputs@.len() ==> is_hex(
                (#[trigger] plan.coinbase_outputs@[i]).output_hex@,
            ),
{
    pulses_by_bits(plan.minimum_pulse_difficulty);
}

/// The same of every plan that counts as valid.
pub proof fn valid_plans_are_fit_for_mining(plan: WorkPlan, config: Config)
    requires
        plan.is_valid(config),
    ensures
        plan.schema_version == 1,
        plan.network_id@ == config.expected_network_id@,
        plan.bitcoin_network@ == config.expected_bitcoin_network@,
        plan.protocol_version >= config.minimum_protocol_version,
        plan.mining_work_safe,
        encode_utf8(plan.plan_id@).len() == 64,
        is_hex(plan.plan_id@),
        plan.active_snapshot_id@.len() > 0,
        plan.current_tip_block_hash is Some,
        encode_utf8(plan.current_tip_block_hash->0@).len() == 64,
        0x3ff0_0000_0000_0000 <= plan.minimum_pulse_difficulty.bits < 0x7ff0_0000_0000_0000,
        is_hex(plan.coinbase_tx_outputs_hex@),
        hex_bytes(plan.coinbase_tx_outputs_hex@).len() == plan.coinbase_tx_outputs_bytes,
        plan.coinbase_outputs@.len() == plan.coinbase_output_count,
{
    pulses_by_bits(plan.minimum_pulse_difficulty);
}

/// The same of every plan that is handed out.
pub proof fn served_plans_are_fit_for_mining(
    cache: &PlanCache,
    config: &Config,
    now_ms: u128,
    served: Result<&WorkPlan, PlanUnavailable>,
)
    requires
        cache.wf(*config),
        call_ensures(PlanCache::current_plan, (cache, config, now_ms), served),
        served is Ok,
    ensures
        served->Ok_0.schema_version == 1,
        served->Ok_0.network_id@ == config.expected_network_id@,
        served->Ok_0.bitcoin_network@ == config.expected_bitcoin_network@,
        served->Ok_0.protocol_version >= config.minimum_protocol_version,
        served->Ok_0.mining_work_safe,
        served->Ok_0.current_tip_block_hash is Some,
{
}

/// A plan whose head is not in order is refused for the first fault: the schema, the network, the
/// Bitcoin network, the protocol, the node's word, the name, the snapshot or parent, the pulse.
pub proof fn plans_are_refused_for_the_first_fault(
    plan: &WorkPlan,
    config: &Config,
    verdict: Result<(), PlanError>,
)
    requires
        call_ensures(WorkPlan::validate, (plan, config), verdict),
    ensures
        ({
            let schema = plan.schema_version == 1;
            let network = schema && plan.network_id@ == config.expected_network_id@;
            let bitcoin = network && plan.bitcoin_network@ == config.expected_bitcoin_network@;
            let protocol = bitcoin && plan.protocol_version >= config.minimum_protocol_version;
            let safe = protocol && plan.mining_work_safe;
            let named = safe && encode_utf8(plan.plan_id@).len() == 64 && is_hex(plan.plan_id@);
            let placed = named && plan.active_snapshot_id@.len() > 0
                && plan.current_tip_block_hash is Some && encode_utf8(
                plan.current_tip_block_hash->0@,
            ).len() == 64;
            let pulse = placed && 0x3ff0_0000_0000_0000 <= plan.minimum_pulse_difficulty.bits
                < 0x7ff0_0000_0000_0000;
            &&& !schema ==> verdict == Err::<(), PlanError>(
                PlanError::UnsupportedSchema(plan.schema_version),
            )
            &&& schema && !network ==> verdict == Err::<(), PlanError>(
                PlanError::NetworkMismatch(plan.network_id),
            )
            &&& network && !bitcoin ==> verdict == Err::<(), PlanError>(
                PlanError::BitcoinNetworkMismatch(plan.bitcoin_network),
            )
            &&& bitcoin && !protocol ==> verdict == Err::<(), PlanError>(
                PlanError::ProtocolTooOld {
                    version: plan.protocol_version,
                    required: config.minimum_protocol_version,
                },
            )
            &&& protocol && !safe ==> verdict == Err::<(), PlanError>(
                PlanError::UnsafeWork(plan.mining_work_safety_reason),
            )
            &&& safe && !named ==> verdict == Err::<(), PlanError>(PlanError::InvalidPlanId)
            &&& named && !placed ==> verdict == Err::<(), PlanError>(
                PlanError::MissingSnapshotOrParent,
            )
            &&& placed && !pulse ==> verdict == Err::<(), PlanError>(
                PlanError::InvalidPulseDifficulty,
            )
            &&& pulse && verdict is Err ==> {
                let e = verdict->Err_0;
                ||| e is OutputsNotHex
                ||| e is OutputsLengthMismatch
                ||| e is OutputCountMismatch
                ||| e is MalformedOutputs
                ||| e is CountedOutputsMismatch
                ||| e is ListedOutputNotHex
                ||| e is OutputsDoNotMatch
            }
        }),
{
    pulses_by_bits(plan.minimum_pulse_difficulty);
}

proof fn lemma_listed_bytes_are_joined(outputs: Seq<CoinbaseOutput>, count: int)
    requires
        0 <= count <= outputs.len(),
    ensures
        listed_bytes(outputs, count) == outputs.take(count).map_values(
            |output: CoinbaseOutput| hex_bytes(output.output_hex@),
        ).flatten(),
    decreases count,
{
    let bytes_of = |output: CoinbaseOutput| hex_bytes(output.output_hex@);
    let pieces = outputs.take(count).map_values(bytes_of);
    pieces.lemma_flatten_and_flatten_alt_are_equivalent();
    if count > 0 {
        let fewer = outputs.take(count - 1).map_values(bytes_of);
        lemma_listed_bytes_are_joined(outputs, count - 1);
        fewer.lemma_flatten_and_flatten_alt_are_equivalent();
        assert(pieces.drop_last() =~= fewer);
        assert(pieces.last() == hex_bytes(outputs[count - 1].output_hex@));
    }
}

/// The payouts of a plan whose head is in order: its hexadecimal text, the announced length, the
/// announced count, what a reader of the vector says, the listed outputs' text, and the bytes
/// behind the vector's count, which are those of the listed outputs one behind the other. The
/// plan is accepted when all are in order, and refused for the first that is not.
pub proof fn payouts_are_checked_against_the_list(
    plan: &WorkPlan,
    config: &Config,
    verdict: Result<(), PlanError>,
    vector: &[u8],
    counted: Result<usize, WireError>,
    prefix: Result<(u64, usize), WireError>,
)
    requires
        call_ensures(WorkPlan::validate, (plan, config), verdict),
        vector@ == hex_bytes(plan.coinbase_tx_outputs_hex@),
        call_ensures(parse_tx_output_vector, (vector,), counted),
        call_ensures(read_compact_size, (vector, 0), prefix),
        plan.schema_version == 1,
        plan.network_id@ == config.expected_network_id@,
        plan.bitcoin_network@ == config.expected_bitcoin_network@,
        plan.protocol_version >= config.minimum_protocol_version,
        plan.mining_work_safe,
        encode_utf8(plan.plan_id@).len() == 64,
        is_hex(plan.plan_id@),
        plan.active_snapshot_id@.len() > 0,
        plan.current_tip_block_hash is Some,
        encode_utf8(plan.current_tip_block_hash->0@).len() == 64,
        0x3ff0_0000_0000_0000 <= plan.minimum_pulse_difficulty.bits < 0x7ff0_0000_0000_0000,
    ensures
        ({
            let hex = is_hex(plan.coinbase_tx_outputs_hex@);
            let length = hex && vector@.len() == plan.coinbase_tx_outputs_bytes;
            let listed = length && plan.coinbase_outputs@.len() == plan.coinbase_output_count;
            let whole = listed && counted is Ok;
            let agreed = whole && counted->Ok_0 == plan.coinbase_output_count;
            let readable = agreed && forall|i: int|
                0 <= i < plan.coinbase_outputs@.len() ==> is_hex(
                    (#[trigger] plan.coinbase_outputs@[i]).output_hex@,
                );
            let same = readable && vector@.skip(prefix->Ok_0.1 as int)
                == plan.coinbase_outputs@.map_values(
                |output: CoinbaseOutput| hex_bytes(output.output_hex@),
            ).flatten();
            &&& !hex ==> verdict == Err::<(), PlanError>(PlanError::OutputsNotHex)
            &&& hex && !length ==> verdict == Err::<(), PlanError>(PlanError::OutputsLengthMismatch)
            &&& length && !listed ==> verdict == Err::<(), PlanError>(
                PlanError::OutputCountMismatch,
            )
            &&& listed && !whole ==> verdict == Err::<(), PlanError>(
                PlanError::MalformedOutputs(counted->Err_0),
            )
            &&& whole && !agreed ==> verdict == Err::<(), PlanError>(
                PlanError::CountedOutputsMismatch {
                    counted: counted->Ok_0,
                    expected: plan.coinbase_output_count,
                },
            )
            &&& agreed && !readable ==> verdict == Err::<(), PlanError>(
                PlanError::ListedOutputNotHex,
            )
            &&& readable && !same ==> verdict == Err::<(), PlanError>(PlanError::OutputsDoNotMatch)
            &&& same ==> verdict is Ok && prefix is Ok && prefix->Ok_0.0
                == plan.coinbase_output_count
        }),
{
    let outputs = plan.coinbase_outputs@;
    pulses_by_bits(plan.minimum_pulse_difficulty);
    lemma_listed_bytes_are_joined(outputs, outputs.len() as int);
    assert(outputs.take(outputs.len() as int) =~= outputs);
}

/// The messages of the errors.
pub proof fn plan_errors_are_told(error: &PlanError, message: String)
    requires
        call_ensures(PlanError::message, (error,), message),
    ensures
        match *error {
            PlanError::UnsupportedSchema(version) => message@ == "unsupported work-plan schema "@
                + decimal(version as nat),
            PlanError::NetworkMismatch(network) => message@ == "GridPool network mismatch: "@
                + network@,
            PlanError::BitcoinNetworkMismatch(network) => message@ == "Bitcoin network mismatch: "@
                + network@,
            PlanError::ProtocolTooOld { version, required } => message@ == "GridPool protocol "@
                + signed_decimal(version as int) + " is below required "@ + signed_decimal(
                required as int,
            ),
            PlanError::UnsafeWork(reason) => message@ == "GridPool reports unsafe mining work: "@
                + reason@,
            PlanError::InvalidPlanId => message@ == "invalid plan ID"@,
            PlanError::MissingSnapshotOrParent => message@
                == "work plan is missing snapshot or current parent"@,
            PlanError::InvalidPulseDifficulty => message@ == "invalid pulse difficulty"@,
            PlanError::OutputsNotHex => message@ == "decode serialized payout outputs"@,
            PlanError::OutputsLengthMismatch => message@
                == "serialized payout output length mismatch"@,
            PlanError::OutputCountMismatch => message@ == "payout output count mismatch"@,
            PlanError::MalformedOutputs(inner) => message@ == inner.text(),
            PlanError::CountedOutputsMismatch { counted, expected } => message@
                == "serialized payout vector contains "@ + decimal(counted as nat)
                + " outputs, expected "@ + decimal(expected as nat),
            PlanError::ListedOutputNotHex => message@ == "decode payout output"@,
            PlanError::OutputsDoNotMatch => message@
                == "serialized payout vector does not match listed outputs"@,
        },
{
}

} // verus!
