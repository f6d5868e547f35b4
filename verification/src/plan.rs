//! The payout plan that the GridPool node hands out, and when it is fit for mining.

use vstd::prelude::*;
use vstd::utf8::encode_utf8;

use crate::config::Config;
use crate::difficulty::Difficulty;
use crate::encoding::{
    compact_size, compact_size_read_back, tx_output, tx_output_vector, tx_outputs,
    written_vector_is_counted, TxOutput,
};
use crate::hexcodec::{decode_hex, hex_bytes, hex_read_back, hex_text, is_hex};
use crate::text::{decimal, decimal_text, join, join3, signed_decimal, signed_decimal_text};
use crate::wire::{
    compact_size_at, output_count, parse_tx_output_vector, read_compact_size, WireError,
};

verus! {

/// The version of the plan's schema that the adapter understands.
pub const WORK_PLAN_SCHEMA_VERSION: u32 = 1;

/// The number of bytes in a plan's name and in the name of a block, in hexadecimal.
pub const HASH_HEX_BYTES: usize = 64;

/// A payout of the coinbase transaction, as the plan lists it.
#[derive(Debug, Clone)]
pub struct CoinbaseOutput {
    pub value: u64,
    pub address: String,
    pub script_pub_key_hex: String,
    pub output_hex: String,
    pub username: String,
    pub difficulty: Difficulty,
    pub diff_string: String,
}

/// A payout plan.
#[derive(Debug, Clone)]
pub struct WorkPlan {
    pub schema_version: u32,
    pub plan_id: String,
    pub sequence: i64,
    pub network_id: String,
    pub bitcoin_network: String,
    pub protocol_version: i32,
    pub active_snapshot_id: String,
    pub current_state_id: String,
    pub candidate_state_id: String,
    pub current_tip_block_hash: Option<String>,
    pub current_tip_block_height: Option<i64>,
    pub mining_work_safe: bool,
    pub mining_work_safety_reason: String,
    pub provisional_tip_block_hash: Option<String>,
    pub total_payout_slot_count: usize,
    pub shared_winner_slot_count: usize,
    pub support_fee_enabled: bool,
    pub coinbase_output_count: usize,
    pub coinbase_tx_outputs_bytes: usize,
    pub coinbase_tx_outputs_hex: String,
    pub coinbase_outputs: Vec<CoinbaseOutput>,
    pub minimum_accepted_difficulty: Difficulty,
    pub minimum_pulse_difficulty: Difficulty,
    pub minimum_difficulty_to_enter_reserve: Difficulty,
    pub minimum_difficulty_to_enter_reserve_display: String,
    pub user_identifier_rule: String,
    pub mode: String,
}

/// Why a plan is refused.
#[derive(Debug, Clone)]
pub enum PlanError {
    UnsupportedSchema(u32),
    NetworkMismatch(String),
    BitcoinNetworkMismatch(String),
    ProtocolTooOld { version: i32, required: i32 },
    UnsafeWork(String),
    InvalidPlanId,
    MissingSnapshotOrParent,
    InvalidPulseDifficulty,
    OutputsNotHex,
    OutputsLengthMismatch,
    OutputCountMismatch,
    MalformedOutputs(WireError),
    CountedOutputsMismatch { counted: usize, expected: usize },
    ListedOutputNotHex,
    OutputsDoNotMatch,
}

impl PlanError {
    /// The message that describes the error.
    pub open spec fn text(self) -> Seq<char> {
        match self {
            PlanError::UnsupportedSchema(version) => "unsupported work-plan schema "@ + decimal(
                version as nat,
            ),
            PlanError::NetworkMismatch(network) => "GridPool network mismatch: "@ + network@,
            PlanError::BitcoinNetworkMismatch(network) => "Bitcoin network mismatch: "@ + network@,
            PlanError::ProtocolTooOld { version, required } => "GridPool protocol "@
                + signed_decimal(version as int) + " is below required "@ + signed_decimal(
                required as int,
            ),
            PlanError::UnsafeWork(reason) => "GridPool reports unsafe mining work: "@ + reason@,
            PlanError::InvalidPlanId => "invalid plan ID"@,
            PlanError::MissingSnapshotOrParent =>
                "work plan is missing snapshot or current parent"@,
            PlanError::InvalidPulseDifficulty => "invalid pulse difficulty"@,
            PlanError::OutputsNotHex => "decode serialized payout outputs"@,
            PlanError::OutputsLengthMismatch => "serialized payout output length mismatch"@,
            PlanError::OutputCountMismatch => "payout output count mismatch"@,
            PlanError::MalformedOutputs(error) => error.text(),
            PlanError::CountedOutputsMismatch { counted, expected } =>
                "serialized payout vector contains "@ + decimal(counted as nat)
                + " outputs, expected "@ + decimal(expected as nat),
            PlanError::ListedOutputNotHex => "decode payout output"@,
            PlanError::OutputsDoNotMatch =>
                "serialized payout vector does not match listed outputs"@,
        }
    }

    /// Returns the message that describes the error.
    pub fn message(&self) -> (message: String)
        ensures
            message@ == self.text(),
    {
        match self {
            PlanError::UnsupportedSchema(version) => join(
                "unsupported work-plan schema ",
                decimal_text(*version as u128).as_str(),
            ),
            PlanError::NetworkMismatch(network) => join(
                "GridPool network mismatch: ",
                network.as_str(),
            ),
            PlanError::BitcoinNetworkMismatch(network) => join(
                "Bitcoin network mismatch: ",
                network.as_str(),
            ),
            PlanError::ProtocolTooOld { version, required } => join(
                join3(
                    "GridPool protocol ",
                    signed_decimal_text(*version as i64).as_str(),
                    " is below required ",
                ).as_str(),
                signed_decimal_text(*required as i64).as_str(),
            ),
            PlanError::UnsafeWork(reason) => join(
                "GridPool reports unsafe mining work: ",
                reason.as_str(),
            ),
            PlanError::InvalidPlanId => "invalid plan ID".to_owned(),
            PlanError::MissingSnapshotOrParent =>
                "work plan is missing snapshot or current parent".to_owned(),
            PlanError::InvalidPulseDifficulty => "invalid pulse difficulty".to_owned(),
            PlanError::OutputsNotHex => "decode serialized payout outputs".to_owned(),
            PlanError::OutputsLengthMismatch =>
                "serialized payout output length mismatch".to_owned(),
            PlanError::OutputCountMismatch => "payout output count mismatch".to_owned(),
            PlanError::MalformedOutputs(error) => error.message().to_owned(),
            PlanError::CountedOutputsMismatch { counted, expected } => join(
                join3(
                    "serialized payout vector contains ",
                    decimal_text(*counted as u128).as_str(),
                    " outputs, expected ",
                ).as_str(),
                decimal_text(*expected as u128).as_str(),
            ),
            PlanError::ListedOutputNotHex => "decode payout output".to_owned(),
            PlanError::OutputsDoNotMatch =>
                "serialized payout vector does not match listed outputs".to_owned(),
        }
    }
}

/// The bytes of the first `count` listed outputs, one behind the other.
pub open spec fn listed_bytes(outputs: Seq<CoinbaseOutput>, count: int) -> Seq<u8>
    decreases count,
{
    if count <= 0 {
        Seq::empty()
    } else {
        listed_bytes(outputs, count - 1) + hex_bytes(outputs[count - 1].output_hex@)
    }
}

impl WorkPlan {
    /// The serialized payout vector.
    pub open spec fn serialized(self) -> Seq<u8> {
        hex_bytes(self.coinbase_tx_outputs_hex@)
    }

    /// Whether the plan speaks the schema, network and protocol that the adapter expects, and
    /// the node vouches for it.
    pub open spec fn is_expected(self, config: Config) -> bool {
        &&& self.schema_version == WORK_PLAN_SCHEMA_VERSION
        &&& self.network_id@ == config.expected_network_id@
        &&& self.bitcoin_network@ == config.expected_bitcoin_network@
        &&& self.protocol_version >= config.minimum_protocol_version
        &&& self.mining_work_safe
    }

    /// Whether the plan's name is a hash in hexadecimal.
    pub open spec fn has_valid_id(self) -> bool {
        encode_utf8(self.plan_id@).len() == HASH_HEX_BYTES && is_hex(self.plan_id@)
    }

    /// Whether the plan names a snapshot and a parent block.
    pub open spec fn has_snapshot_and_parent(self) -> bool {
        &&& self.active_snapshot_id@.len() > 0
        &&& self.current_tip_block_hash is Some
        &&& encode_utf8(self.current_tip_block_hash->0@).len() == HASH_HEX_BYTES
    }

    /// Whether every listed output is in hexadecimal.
    pub open spec fn listed_outputs_are_hex(self) -> bool {
        forall|i: int|
            0 <= i < self.coinbase_outputs@.len() ==> is_hex(
                (#[trigger] self.coinbase_outputs@[i]).output_hex@,
            )
    }

    /// Whether the serialized vector is the count of the listed outputs followed by those
    /// outputs, and its announced sizes are right.
    pub open spec fn payouts_agree(self) -> bool {
        &&& is_hex(self.coinbase_tx_outputs_hex@)
        &&& self.serialized().len() == self.coinbase_tx_outputs_bytes
        &&& self.coinbase_output_count == self.coinbase_outputs@.len()
        &&& output_count(self.serialized()) == Ok::<nat, WireError>(
            self.coinbase_output_count as nat,
        )
        &&& self.listed_outputs_are_hex()
        &&& self.serialized().skip(compact_size_at(self.serialized(), 0)->Ok_0.1) == listed_bytes(
            self.coinbase_outputs@,
            self.coinbase_outputs@.len() as int,
        )
    }

    /// Whether the plan is fit for mining under a configuration.
    pub open spec fn is_valid(self, config: Config) -> bool {
        &&& self.is_expected(config)
        &&& self.has_valid_id()
        &&& self.has_snapshot_and_parent()
        &&& self.minimum_pulse_difficulty.is_pulse()
        &&& self.payouts_agree()
    }

    /// The error for payouts that do not agree: the first of the conditions that fails.
    pub open spec fn payouts_refusal(self) -> PlanError {
        if !is_hex(self.coinbase_tx_outputs_hex@) {
            PlanError::OutputsNotHex
        } else if self.serialized().len() != self.coinbase_tx_outputs_bytes {
            PlanError::OutputsLengthMismatch
        } else if self.coinbase_output_count != self.coinbase_outputs@.len() {
            PlanError::OutputCountMismatch
        } else {
            match output_count(self.serialized()) {
                Err(e) => PlanError::MalformedOutputs(e),
                Ok(counted) => if counted != self.coinbase_output_count {
                    PlanError::CountedOutputsMismatch {
                        counted: counted as usize,
                        expected: self.coinbase_output_count,
                    }
                } else if !self.listed_outputs_are_hex() {
                    PlanError::ListedOutputNotHex
                } else {
                    PlanError::OutputsDoNotMatch
                },
            }
        }
    }

    /// The error for a plan that is not valid: the first of the conditions that fails.
    pub open spec fn refusal(self, config: Config) -> PlanError {
        if self.schema_version != WORK_PLAN_SCHEMA_VERSION {
            PlanError::UnsupportedSchema(self.schema_version)
        } else if self.network_id@ != config.expected_network_id@ {
            PlanError::NetworkMismatch(self.network_id)
        } else if self.bitcoin_network@ != config.expected_bitcoin_network@ {
            PlanError::BitcoinNetworkMismatch(self.bitcoin_network)
        } else if self.protocol_version < config.minimum_protocol_version {
            PlanError::ProtocolTooOld {
                version: self.protocol_version,
                required: config.minimum_protocol_version,
            }
        } else if !self.mining_work_safe {
            PlanError::UnsafeWork(self.mining_work_safety_reason)
        } else if !self.has_valid_id() {
            PlanError::InvalidPlanId
        } else if !self.has_snapshot_and_parent() {
            PlanError::MissingSnapshotOrParent
        } else if !self.minimum_pulse_difficulty.is_pulse() {
            PlanError::InvalidPulseDifficulty
        } else {
            self.payouts_refusal()
        }
    }

    /// Checks that the plan is fit for mining.
    pub fn validate(&self, config: &Config) -> (verdict: Result<(), PlanError>)
        ensures
            verdict is Ok <==> self.is_valid(*config),
            verdict is Err ==> verdict->Err_0 == self.refusal(*config),
    {
        if self.schema_version != WORK_PLAN_SCHEMA_VERSION {
            return Err(PlanError::UnsupportedSchema(self.schema_version));
        }
        if !(self.network_id == config.expected_network_id) {
            return Err(PlanError::NetworkMismatch(self.network_id.clone()));
        }
        if !(self.bitcoin_network == config.expected_bitcoin_network) {
            return Err(PlanError::BitcoinNetworkMismatch(self.bitcoin_network.clone()));
        }
        if self.protocol_version < config.minimum_protocol_version {
            return Err(
                PlanError::ProtocolTooOld {
                    version: self.protocol_version,
                    required: config.minimum_protocol_version,
                },
            );
        }
        if !self.mining_work_safe {
            return Err(PlanError::UnsafeWork(self.mining_work_safety_reason.clone()));
        }
        if self.plan_id.as_str().as_bytes().len() != HASH_HEX_BYTES || decode_hex(
            self.plan_id.as_str(),
        ).is_err() {
            return Err(PlanError::InvalidPlanId);
        }
        if self.active_snapshot_id.as_str().is_empty() || !self.names_parent() {
            return Err(PlanError::MissingSnapshotOrParent);
        }
        if !self.minimum_pulse_difficulty.can_be_pulse() {
            return Err(PlanError::InvalidPulseDifficulty);
        }
        self.validate_payouts()
    }

    fn names_parent(&self) -> (names: bool)
        ensures
            names <==> self.current_tip_block_hash is Some && encode_utf8(
                self.current_tip_block_hash->0@,
            ).len() == HASH_HEX_BYTES,
    {
        match &self.current_tip_block_hash {
            Some(hash) => hash.as_str().as_bytes().len() == HASH_HEX_BYTES,
            None => false,
        }
    }

    fn validate_payouts(&self) -> (verdict: Result<(), PlanError>)
        ensures
            verdict is Ok <==> self.payouts_agree(),
            verdict is Err ==> verdict->Err_0 == self.payouts_refusal(),
    {
        let serialized: Vec<u8> = match decode_hex(self.coinbase_tx_outputs_hex.as_str()) {
            Ok(bytes) => bytes,
            Err(_) => {
                return Err(PlanError::OutputsNotHex);
            },
        };
        if serialized.len() != self.coinbase_tx_outputs_bytes {
            return Err(PlanError::OutputsLengthMismatch);
        }
        if self.coinbase_output_count != self.coinbase_outputs.len() {
            return Err(PlanError::OutputCountMismatch);
        }
        let counted: usize = match parse_tx_output_vector(serialized.as_slice()) {
            Ok(counted) => counted,
            Err(e) => {
                return Err(PlanError::MalformedOutputs(e));
            },
        };
        if counted != self.coinbase_output_count {
            return Err(
                PlanError::CountedOutputsMismatch { counted, expected: self.coinbase_output_count },
            );
        }
        let listed: Vec<u8> = match self.decode_listed() {
            Ok(bytes) => bytes,
            Err(e) => {
                return Err(e);
            },
        };
        let prefix: usize = match read_compact_size(serialized.as_slice(), 0) {
            Ok((_, next)) => next,
            Err(e) => {
                return Err(PlanError::MalformedOutputs(e));
            },
        };
        if !ends_with(serialized.as_slice(), prefix, listed.as_slice()) {
            return Err(PlanError::OutputsDoNotMatch);
        }
        Ok(())
    }

    fn decode_listed(&self) -> (bytes: Result<Vec<u8>, PlanError>)
        ensures
            bytes is Ok <==> self.listed_outputs_are_hex(),
            bytes is Ok ==> bytes->Ok_0@ == listed_bytes(
                self.coinbase_outputs@,
                self.coinbase_outputs@.len() as int,
            ),
            bytes is Err ==> bytes->Err_0 == PlanError::ListedOutputNotHex,
    {
        let mut bytes: Vec<u8> = Vec::new();
        let mut i: usize = 0;
        while i < self.coinbase_outputs.len()
            invariant
                i <= self.coinbase_outputs@.len(),
                bytes@ == listed_bytes(self.coinbase_outputs@, i as int),
                forall|j: int|
                    0 <= j < i ==> is_hex((#[trigger] self.coinbase_outputs@[j]).output_hex@),
            decreases self.coinbase_outputs@.len() - i,
        {
            match decode_hex(self.coinbase_outputs[i].output_hex.as_str()) {
                Ok(mut output) => {
                    bytes.append(&mut output);
                },
                Err(_) => {
                    return Err(PlanError::ListedOutputNotHex);
                },
            }
            i = i + 1;
        }
        Ok(bytes)
    }
}

/// Tells whether `tail` is what follows the first `start` bytes of `data`.
fn ends_with(data: &[u8], start: usize, tail: &[u8]) -> (ends: bool)
    requires
        start <= data@.len(),
    ensures
        ends <==> data@.skip(start as int) == tail@,
{
    if data.len() - start != tail.len() {
        return false;
    }
    let mut i: usize = 0;
    while i < tail.len()
        invariant
            i <= tail@.len(),
            start + tail@.len() == data.len(),
            forall|j: int| 0 <= j < i ==> data@.skip(start as int)[j] == #[trigger] tail@[j],
        decreases tail@.len() - i,
    {
        if data[start + i] != tail[i] {
            proof {
                assert(data@.skip(start as int)[i as int] != tail@[i as int]);
            }
            return false;
        }
        i = i + 1;
    }
    proof {
        assert(data@.skip(start as int) =~= tail@);
    }
    true
}

/// The serialized vector of a valid plan is the count of the listed outputs, followed by
/// exactly the listed outputs.
pub proof fn valid_plan_pays_what_it_lists(plan: WorkPlan, config: Config)
    requires
        plan.is_valid(config),
    ensures
        compact_size_at(plan.serialized(), 0) is Ok,
        ({
            let (count, prefix) = compact_size_at(plan.serialized(), 0)->Ok_0;
            &&& count == plan.coinbase_outputs@.len()
            &&& plan.serialized() == plan.serialized().take(prefix) + listed_bytes(
                plan.coinbase_outputs@,
                plan.coinbase_outputs@.len() as int,
            )
        }),
{
    let prefix = compact_size_at(plan.serialized(), 0)->Ok_0.1;
    assert(plan.serialized() =~= plan.serialized().take(prefix) + plan.serialized().skip(prefix));
}

proof fn lemma_listed_is_written(listed: Seq<CoinbaseOutput>, outputs: Seq<TxOutput>, count: int)
    requires
        0 <= count <= outputs.len() == listed.len(),
        forall|i: int|
            0 <= i < outputs.len() ==> (#[trigger] listed[i]).output_hex@ == hex_text(
                tx_output(outputs[i]),
            ),
    ensures
        listed_bytes(listed, count) + tx_outputs(outputs.skip(count)) == tx_outputs(outputs),
    decreases count,
{
    if count == 0 {
        assert(outputs.skip(0) =~= outputs);
        assert(listed_bytes(listed, count) + tx_outputs(outputs) =~= tx_outputs(outputs));
    } else {
        let last = tx_output(outputs[count - 1]);
        lemma_listed_is_written(listed, outputs, count - 1);
        hex_read_back(last);
        assert(listed[count - 1].output_hex@ == hex_text(last));
        assert(outputs.skip(count - 1).skip(1) =~= outputs.skip(count));
        assert(outputs.skip(count - 1)[0] == outputs[count - 1]);
        let before = listed_bytes(listed, count - 1);
        let after = tx_outputs(outputs.skip(count));
        assert((before + last) + after =~= before + (last + after));
    }
}

/// Payouts that are listed and serialized from the same outputs agree.
pub proof fn payouts_written_from_outputs_agree(plan: WorkPlan, outputs: Seq<TxOutput>)
    requires
        tx_output_vector(outputs).len() == plan.coinbase_tx_outputs_bytes,
        outputs.len() == plan.coinbase_output_count == plan.coinbase_outputs@.len(),
        plan.coinbase_tx_outputs_hex@ == hex_text(tx_output_vector(outputs)),
        forall|i: int|
            0 <= i < outputs.len() ==> (#[trigger] plan.coinbase_outputs@[i]).output_hex@
                == hex_text(tx_output(outputs[i])),
    ensures
        plan.payouts_agree(),
{
    let data = tx_output_vector(outputs);
    let n = outputs.len();
    hex_read_back(data);
    written_vector_is_counted(outputs);
    assert forall|i: int| 0 <= i < plan.coinbase_outputs@.len() implies is_hex(
        (#[trigger] plan.coinbase_outputs@[i]).output_hex@,
    ) by {
        hex_read_back(tx_output(outputs[i]));
    }
    compact_size_read_back(Seq::empty(), n, tx_outputs(outputs));
    assert(Seq::<u8>::empty() + compact_size(n) + tx_outputs(outputs) =~= data);
    assert(Seq::<u8>::empty() + compact_size(n) =~= compact_size(n));
    lemma_listed_is_written(plan.coinbase_outputs@, outputs, n as int);
    assert(outputs.skip(n as int) =~= Seq::empty());
    let listed = listed_bytes(plan.coinbase_outputs@, n as int);
    assert(listed + tx_outputs(outputs.skip(n as int)) =~= listed);
    assert(data.skip(compact_size(n).len() as int) =~= tx_outputs(outputs));
}

} // verus!
