//! Requests and responses.

use vstd::prelude::*;

use crate::ipc::{check_schema, IpcData, IpcError, IpcRequest, IpcResponse};
use crate::text::decimal;

verus! {

/// The first version of the schema is the only one.
pub proof fn only_the_first_schema_is_spoken(schema: u32, checked: Result<(), IpcError>)
    requires
        call_ensures(check_schema, (schema,), checked),
    ensures
        schema == 1 ==> checked is Ok,
        schema != 1 ==> checked is Err && checked->Err_0 == IpcError::UnsupportedSchema(schema),
{
}

/// The version of a request is the one that it was written in.
pub proof fn requests_name_their_schema(request: &IpcRequest, version: u32)
    requires
        call_ensures(IpcRequest::schema_version, (request,), version),
    ensures
        version == request.version(),
        match *request {
            IpcRequest::GetPlan { schema_version } => version == schema_version,
            IpcRequest::FeeDecision { schema_version, .. } => version == schema_version,
            IpcRequest::SubmitProof { schema_version, .. } => version == schema_version,
            IpcRequest::SubmitTelemetry { schema_version, .. } => version == schema_version,
            IpcRequest::RecordShare { schema_version, .. } => version == schema_version,
            IpcRequest::Health { schema_version } => version == schema_version,
        },
{
}

/// Data is granted as it is, and an error told by its message, both in the first version of the
/// schema.
pub proof fn outcomes_are_answered<'a>(
    outcome: Result<IpcData<'a>, IpcError>,
    response: IpcResponse<'a>,
)
    requires
        call_ensures(IpcResponse::<'a>::of, (outcome,), response),
    ensures
        outcome is Ok ==> response is Success && response->Success_schema_version == 1
            && response->data == outcome->Ok_0,
        outcome is Err ==> response is Error && response->Error_schema_version == 1
            && response->code@ == "request_failed"@ && response->message@
            == outcome->Err_0.text(),
{
}

/// The messages of the errors.
pub proof fn ipc_errors_are_told(error: &IpcError, message: String)
    requires
        call_ensures(IpcError::message, (error,), message),
    ensures
        message@ == error.text(),
        match *error {
            IpcError::UnsupportedSchema(version) => message@ == "unsupported IPC schema "@
                + decimal(version as nat),
            IpcError::Plan(inner) => message@ == inner.text(),
            IpcError::ParentMismatch => message@
                == "fee request parent does not match current plan"@,
            IpcError::InvalidPayoutScript => message@ == "invalid payout script"@,
            IpcError::Fee(inner) => message@ == inner.text(),
            IpcError::InvalidDifficulty => message@ == "invalid telemetry difficulty"@,
            IpcError::Failed(reason) => message@ == reason@,
        },
{
}

} // verus!
