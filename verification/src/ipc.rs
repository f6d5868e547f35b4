//! Requests of CKPool and the responses to them.

use vstd::prelude::*;

use crate::cache::PlanUnavailable;
use crate::difficulty::Difficulty;
use crate::fee::FeeError;
use crate::health::HealthReport;
use crate::plan::WorkPlan;
use crate::telemetry::ShareReport;
use crate::text::{decimal, decimal_text, join};

verus! {

/// The version of the schema of requests and responses.
pub const IPC_SCHEMA_VERSION: u32 = 1;

/// A request of CKPool.
#[derive(Debug)]
pub enum IpcRequest {
    GetPlan { schema_version: u32 },
    FeeDecision {
        schema_version: u32,
        parent_hash: String,
        payout_script_hex: String,
        unix_seconds: i64,
    },
    SubmitProof { schema_version: u32, proof: serde_json::Value },
    SubmitTelemetry { schema_version: u32, batch: serde_json::Value },
    RecordShare {
        schema_version: u32,
        channel_id: String,
        payout_address: String,
        username: String,
        accepted: bool,
        difficulty: Difficulty,
        fee_work: bool,
        observed_unix_ms: i64,
    },
    Health { schema_version: u32 },
}

/// What a request that is granted gets.
#[derive(Debug)]
pub enum IpcData<'a> {
    Plan(&'a WorkPlan),
    FeeDecision { bucket: i64, bucket_seconds: i64, fee_active: bool, fee_basis_points: u16 },
    Queued,
    TelemetryAccepted,
    Recorded,
    Health(HealthReport),
}

/// The response to a request.
#[derive(Debug)]
pub enum IpcResponse<'a> {
    Success { schema_version: u32, data: IpcData<'a> },
    Error { schema_version: u32, code: String, message: String },
}

/// What a request asks for next: a response, or work that has to be done first.
#[derive(Debug)]
pub enum IpcStep<'a> {
    /// The request is answered.
    Respond(IpcResponse<'a>),
    /// The proof is to be stored in the queue.
    QueueProof { payload: String },
    /// The batch is to be sent to the node.
    PostTelemetry { batch: serde_json::Value },
    /// The share's difficulty is to be added to its miner's sums, and the share counted.
    RecordShare(ShareReport),
    /// The depth of the queue is to be read, and the state reported.
    ReportHealth,
}

/// Why a request is refused.
#[derive(Debug, Clone)]
pub enum IpcError {
    UnsupportedSchema(u32),
    Plan(PlanUnavailable),
    ParentMismatch,
    InvalidPayoutScript,
    Fee(FeeError),
    InvalidDifficulty,
    /// Work that the request asked for failed, with a message.
    Failed(String),
}

impl IpcError {
    /// The message that describes the error.
    pub open spec fn text(self) -> Seq<char> {
        match self {
            IpcError::UnsupportedSchema(version) => "unsupported IPC schema "@ + decimal(
                version as nat,
            ),
            IpcError::Plan(error) => error.text(),
            IpcError::ParentMismatch => "fee request parent does not match current plan"@,
            IpcError::InvalidPayoutScript => "invalid payout script"@,
            IpcError::Fee(error) => error.text(),
            IpcError::InvalidDifficulty => "invalid telemetry difficulty"@,
            IpcError::Failed(message) => message@,
        }
    }

    /// Returns the message that describes the error.
    pub fn message(&self) -> (message: String)
        ensures
            message@ == self.text(),
    {
        match self {
            IpcError::UnsupportedSchema(version) => join(
                "unsupported IPC schema ",
                decimal_text(*version as u128).as_str(),
            ),
            IpcError::Plan(error) => error.message(),
            IpcError::ParentMismatch =>
                "fee request parent does not match current plan".to_owned(),
            IpcError::InvalidPayoutScript => "invalid payout script".to_owned(),
            IpcError::Fee(error) => error.message().to_owned(),
            IpcError::InvalidDifficulty => "invalid telemetry difficulty".to_owned(),
            IpcError::Failed(message) => message.clone(),
        }
    }
}

impl IpcRequest {
    /// The version of the schema that the request is written in.
    pub open spec fn version(self) -> u32 {
        match self {
            IpcRequest::GetPlan { schema_version } => schema_version,
            IpcRequest::FeeDecision { schema_version, .. } => schema_version,
            IpcRequest::SubmitProof { schema_version, .. } => schema_version,
            IpcRequest::SubmitTelemetry { schema_version, .. } => schema_version,
            IpcRequest::RecordShare { schema_version, .. } => schema_version,
            IpcRequest::Health { schema_version } => schema_version,
        }
    }

    /// Returns the version of the schema that the request is written in.
    pub fn schema_version(&self) -> (version: u32)
        ensures
            version == self.version(),
    {
        match self {
            IpcRequest::GetPlan { schema_version } => *schema_version,
            IpcRequest::FeeDecision { schema_version, .. } => *schema_version,
            IpcRequest::SubmitProof { schema_version, .. } => *schema_version,
            IpcRequest::SubmitTelemetry { schema_version, .. } => *schema_version,
            IpcRequest::RecordShare { schema_version, .. } => *schema_version,
            IpcRequest::Health { schema_version } => *schema_version,
        }
    }
}

impl<'a> IpcResponse<'a> {
    /// Whether this refuses a request with an error.
    pub open spec fn refuses(self, error: IpcError) -> bool {
        match self {
            IpcResponse::Success { .. } => false,
            IpcResponse::Error { schema_version, code, message } => {
                &&& schema_version == IPC_SCHEMA_VERSION
                &&& code@ == "request_failed"@
                &&& message@ == error.text()
            },
        }
    }

    /// Whether this grants a request some data.
    pub open spec fn grants(self, granted: IpcData<'a>) -> bool {
        self == (IpcResponse::Success { schema_version: IPC_SCHEMA_VERSION, data: granted })
    }

    /// Answers a request with its outcome.
    pub fn of(outcome: Result<IpcData<'a>, IpcError>) -> (response: IpcResponse<'a>)
        ensures
            match outcome {
                Ok(data) => response.grants(data),
                Err(error) => response.refuses(error),
            },
    {
        match outcome {
            Ok(data) => IpcResponse::Success { schema_version: IPC_SCHEMA_VERSION, data },
            Err(error) => IpcResponse::Error {
                schema_version: IPC_SCHEMA_VERSION,
                code: "request_failed".to_owned(),
                message: error.message(),
            },
        }
    }
}

impl<'a> IpcStep<'a> {
    /// Whether this answers a request by refusing it with an error.
    pub open spec fn refuses(self, error: IpcError) -> bool {
        self matches IpcStep::Respond(response) && response.refuses(error)
    }

    /// Whether this answers a request by granting it some data.
    pub open spec fn grants(self, granted: IpcData<'a>) -> bool {
        self matches IpcStep::Respond(response) && response.grants(granted)
    }
}

/// Checks the version of the schema that a request is written in.
pub fn check_schema(schema: u32) -> (checked: Result<(), IpcError>)
    ensures
        checked is Ok <==> schema == IPC_SCHEMA_VERSION,
        checked is Err ==> checked->Err_0 == IpcError::UnsupportedSchema(schema),
{
    if schema != IPC_SCHEMA_VERSION {
        return Err(IpcError::UnsupportedSchema(schema));
    }
    Ok(())
}

} // verus!
