//! The adapter: its state, and what it does on each event.

use vstd::prelude::*;

use crate::cache::PlanCache;
use crate::config::Config;
use crate::fee::{bucket_of, fee_bucket, fee_is_active, FeeError, FEE_BUCKET_SECONDS};
use crate::health::HealthReport;
use crate::hexcodec::{decode_hex, is_hex};
use crate::ipc::{
    check_schema, IpcData, IpcError, IpcRequest, IpcResponse, IpcStep, IPC_SCHEMA_VERSION,
};
use crate::metrics::Metrics;
use crate::payload::{json_text, proof_payload};
use crate::plan::{PlanError, WorkPlan};
use crate::queue::QueueStep;
use crate::telemetry::{
    by_miner, restored, sums_by_miner, well_kept, with_share, ShareReport, TelemetryAccumulator,
    TelemetryBook, WorkSums,
};

verus! {

/// The state of the adapter.
pub struct Adapter {
    pub config: Config,
    pub fee_secret: Vec<u8>,
    pub plans: PlanCache,
    pub metrics: Metrics,
    pub telemetry: TelemetryBook,
}

/// Something that happened to the supply of plans.
#[derive(Debug, Clone, Copy, PartialEq, Eq, Structural)]
pub enum PlanEvent {
    /// The adapter starts.
    Started,
    /// The node closed its stream of plans.
    StreamEnded,
    /// The node's stream of plans broke off, or did not start.
    StreamFailed,
    /// A single plan was fetched and installed.
    PollSucceeded,
    /// A single plan could not be fetched or installed.
    PollFailed,
    /// The pause is over.
    Rested,
}

/// What is done next for the supply of plans.
#[derive(Debug, Clone, Copy, PartialEq, Eq, Structural)]
pub enum PlanStep {
    /// Follow the node's stream of plans.
    Stream,
    /// Fetch a single plan.
    Poll,
    /// Pause.
    Rest { millis: u64 },
}

/// What is done next for the supply of plans: the stream is followed, and each time it is closed
/// or breaks off a single plan is fetched and a pause made.
pub open spec fn plan_step_after(event: PlanEvent, poll_interval_ms: u64) -> PlanStep {
    match event {
        PlanEvent::Started | PlanEvent::Rested => PlanStep::Stream,
        PlanEvent::StreamEnded | PlanEvent::StreamFailed => PlanStep::Poll,
        PlanEvent::PollSucceeded | PlanEvent::PollFailed => PlanStep::Rest {
            millis: poll_interval_ms,
        },
    }
}

/// Whether optional text is a given text.
pub open spec fn is_text(text: Option<String>, wanted: Seq<char>) -> bool {
    text is Some && text->0@ == wanted
}

impl Adapter {
    /// The plan at hand is valid and of known age, and the book of shares is well kept.
    pub open spec fn wf(self) -> bool {
        self.plans.wf(self.config) && self.telemetry.wf()
    }

    /// Why a fee decision is refused, if it is.
    pub open spec fn fee_refusal(
        self,
        parent_hash: Seq<char>,
        payout_script_hex: Seq<char>,
        now_ms: u128,
    ) -> Option<IpcError> {
        match self.plans.served(self.config, now_ms) {
            Err(e) => Some(IpcError::Plan(e)),
            Ok(plan) => if !is_text(plan.current_tip_block_hash, parent_hash) {
                Some(IpcError::ParentMismatch)
            } else if !is_hex(payout_script_hex) {
                Some(IpcError::InvalidPayoutScript)
            } else if self.config.fee_basis_points > crate::config::WHOLE_BASIS_POINTS {
                Some(IpcError::Fee(FeeError::BasisPointsTooLarge))
            } else {
                None
            },
        }
    }

    /// Why a request is refused, if it is.
    pub open spec fn refusal(self, request: IpcRequest, now_ms: u128) -> Option<IpcError> {
        if request.version() != IPC_SCHEMA_VERSION {
            Some(IpcError::UnsupportedSchema(request.version()))
        } else {
            match request {
                IpcRequest::GetPlan { .. } => match self.plans.served(self.config, now_ms) {
                    Err(e) => Some(IpcError::Plan(e)),
                    Ok(_) => None,
                },
                IpcRequest::FeeDecision { parent_hash, payout_script_hex, .. } => self.fee_refusal(
                    parent_hash@,
                    payout_script_hex@,
                    now_ms,
                ),
                IpcRequest::RecordShare { difficulty, .. } => if difficulty.is_share() {
                    None
                } else {
                    Some(IpcError::InvalidDifficulty)
                },
                _ => None,
            }
        }
    }

    /// Whether a step is the one that a request asks for, given that it is not refused.
    pub open spec fn is_step_of(self, step: IpcStep, request: IpcRequest, now_ms: u128) -> bool {
        match request {
            IpcRequest::GetPlan { .. } => step matches IpcStep::Respond(IpcResponse::Success {
                schema_version,
                data: IpcData::Plan(plan),
            }) && schema_version == IPC_SCHEMA_VERSION && *plan == self.plans.served(
                self.config,
                now_ms,
            )->Ok_0,
            IpcRequest::FeeDecision { parent_hash, payout_script_hex, unix_seconds, .. } => {
                step.grants(
                    IpcData::FeeDecision {
                        bucket: bucket_of(unix_seconds as int) as i64,
                        bucket_seconds: FEE_BUCKET_SECONDS,
                        fee_active: fee_is_active(
                            self.fee_secret@,
                            self.plans.served(self.config, now_ms)->Ok_0.bitcoin_network@,
                            parent_hash@,
                            payout_script_hex@,
                            unix_seconds as int,
                            self.config.fee_basis_points as int,
                        ),
                        fee_basis_points: self.config.fee_basis_points,
                    },
                )
            },
            IpcRequest::SubmitProof { proof, .. } => step matches IpcStep::QueueProof { payload }
                && payload@ == json_text(proof),
            IpcRequest::SubmitTelemetry { batch, .. } => step == (IpcStep::PostTelemetry { batch }),
            IpcRequest::RecordShare {
                channel_id,
                payout_address,
                username,
                accepted,
                difficulty,
                fee_work,
                observed_unix_ms,
                ..
            } => step == IpcStep::RecordShare(
                ShareReport {
                    channel_id,
                    payout_address,
                    username,
                    accepted,
                    difficulty,
                    fee_work,
                    observed_unix_ms,
                },
            ),
            IpcRequest::Health { .. } => step is ReportHealth,
        }
    }

    /// Starts the adapter without a plan and without shares.
    pub fn new(config: Config, fee_secret: Vec<u8>) -> (adapter: Adapter)
        ensures
            adapter.wf(),
            adapter.config == config,
            adapter.fee_secret == fee_secret,
            adapter.plans == (PlanCache { plan: None, updated_unix_ms: None }),
            adapter.telemetry.entries@.len() == 0,
            adapter.metrics.plan_updates == 0,
            adapter.metrics.plan_errors == 0,
            adapter.metrics.ipc_requests == 0,
            adapter.metrics.queued_proofs == 0,
            adapter.metrics.submitted_proofs == 0,
            adapter.metrics.failed_proofs == 0,
            adapter.metrics.telemetry_batches == 0,
    {
        Adapter {
            config,
            fee_secret,
            plans: PlanCache::new(),
            metrics: Metrics::default(),
            telemetry: TelemetryBook::new(),
        }
    }

    /// Takes over a plan that arrived, and tells whether it is another one than the plan at
    /// hand. A plan that is not valid changes nothing.
    pub fn install_plan(&mut self, plan: WorkPlan, now_ms: u128) -> (changed: Result<
        bool,
        PlanError,
    >)
        requires
            plan.is_valid(old(self).config) && old(self).plans.differs_from(plan) ==> old(
                self,
            ).metrics.plan_updates < u64::MAX,
        ensures
            changed is Ok <==> plan.is_valid(old(self).config),
            changed is Ok ==> changed->Ok_0 == old(self).plans.differs_from(plan) && *final(self)
                == (Adapter {
                plans: old(self).plans.installed(plan, now_ms),
                metrics: Metrics {
                    plan_updates: if changed->Ok_0 {
                        (old(self).metrics.plan_updates + 1) as u64
                    } else {
                        old(self).metrics.plan_updates
                    },
                    ..old(self).metrics
                },
                ..*old(self)
            }),
            changed is Err ==> *final(self) == *old(self) && changed->Err_0 == plan.refusal(
                old(self).config,
            ),
            old(self).wf() ==> final(self).wf(),
    {
        let changed = self.plans.install_plan(&self.config, plan, now_ms);
        if let Ok(another) = &changed {
            if *another {
                self.metrics.plan_updates = self.metrics.plan_updates + 1;
            }
        }
        changed
    }

    /// Returns the socket on which CKPool is to be told of a plan, given whether it is another
    /// one than the plan before: none where it is not, or where no socket is set.
    pub fn socket_to_notify(&self, changed: bool) -> (socket: Option<&String>)
        ensures
            socket is Some <==> changed && self.config.ckpool_notify_socket is Some,
            socket is Some ==> *socket->0 == self.config.ckpool_notify_socket->0,
    {
        if changed {
            self.config.ckpool_notify_socket.as_ref()
        } else {
            None
        }
    }

    /// Decides what is done next for the supply of plans, and counts failures.
    pub fn next_plan_step(&mut self, event: PlanEvent) -> (step: PlanStep)
        requires
            event is PollFailed ==> old(self).metrics.plan_errors < u64::MAX,
        ensures
            step == plan_step_after(event, old(self).config.poll_interval_ms),
            *final(self) == (Adapter {
                metrics: Metrics {
                    plan_errors: if event is PollFailed {
                        (old(self).metrics.plan_errors + 1) as u64
                    } else {
                        old(self).metrics.plan_errors
                    },
                    ..old(self).metrics
                },
                ..*old(self)
            }),
    {
        match event {
            PlanEvent::Started | PlanEvent::Rested => PlanStep::Stream,
            PlanEvent::StreamEnded | PlanEvent::StreamFailed => PlanStep::Poll,
            PlanEvent::PollSucceeded => PlanStep::Rest { millis: self.config.poll_interval_ms },
            PlanEvent::PollFailed => {
                self.metrics.plan_errors = self.metrics.plan_errors + 1;
                PlanStep::Rest { millis: self.config.poll_interval_ms }
            },
        }
    }

    /// Counts a request.
    pub fn count_request(&mut self)
        requires
            old(self).metrics.ipc_requests < u64::MAX,
        ensures
            *final(self) == (Adapter {
                metrics: Metrics {
                    ipc_requests: (old(self).metrics.ipc_requests + 1) as u64,
                    ..old(self).metrics
                },
                ..*old(self)
            }),
    {
        self.metrics.ipc_requests = self.metrics.ipc_requests + 1;
    }

    /// Decides what a request asks for next.
    pub fn process_ipc(&self, request: IpcRequest, now_ms: u128) -> (step: IpcStep<'_>)
        ensures
            match self.refusal(request, now_ms) {
                Some(error) => step.refuses(error),
                None => self.is_step_of(step, request, now_ms),
            },
    {
        match check_schema(request.schema_version()) {
            Ok(()) => {},
            Err(error) => {
                return IpcStep::Respond(IpcResponse::of(Err(error)));
            },
        }
        match request {
            IpcRequest::GetPlan { .. } => match self.plans.current_plan(&self.config, now_ms) {
                Ok(plan) => IpcStep::Respond(IpcResponse::of(Ok(IpcData::Plan(plan)))),
                Err(e) => IpcStep::Respond(IpcResponse::of(Err(IpcError::Plan(e)))),
            },
            IpcRequest::FeeDecision { parent_hash, payout_script_hex, unix_seconds, .. } => {
                IpcStep::Respond(
                    IpcResponse::of(
                        self.fee_decision(&parent_hash, &payout_script_hex, unix_seconds, now_ms),
                    ),
                )
            },
            IpcRequest::SubmitProof { proof, .. } => IpcStep::QueueProof {
                payload: proof_payload(&proof),
            },
            IpcRequest::SubmitTelemetry { batch, .. } => IpcStep::PostTelemetry { batch },
            IpcRequest::RecordShare {
                channel_id,
                payout_address,
                username,
                accepted,
                difficulty,
                fee_work,
                observed_unix_ms,
                ..
            } => {
                if !difficulty.can_be_share() {
                    return IpcStep::Respond(IpcResponse::of(Err(IpcError::InvalidDifficulty)));
                }
                IpcStep::RecordShare(
                    ShareReport {
                        channel_id,
                        payout_address,
                        username,
                        accepted,
                        difficulty,
                        fee_work,
                        observed_unix_ms,
                    },
                )
            },
            IpcRequest::Health { .. } => IpcStep::ReportHealth,
        }
    }

    fn fee_decision(
        &self,
        parent_hash: &String,
        payout_script_hex: &String,
        unix_seconds: i64,
        now_ms: u128,
    ) -> (decision: Result<IpcData<'_>, IpcError>)
        ensures
            match self.fee_refusal(parent_hash@, payout_script_hex@, now_ms) {
                Some(error) => decision is Err && decision->Err_0 == error,
                None => decision is Ok && decision->Ok_0 == (IpcData::FeeDecision {
                    bucket: bucket_of(unix_seconds as int) as i64,
                    bucket_seconds: FEE_BUCKET_SECONDS,
                    fee_active: fee_is_active(
                        self.fee_secret@,
                        self.plans.served(self.config, now_ms)->Ok_0.bitcoin_network@,
                        parent_hash@,
                        payout_script_hex@,
                        unix_seconds as int,
                        self.config.fee_basis_points as int,
                    ),
                    fee_basis_points: self.config.fee_basis_points,
                }),
            },
    {
        let plan: &WorkPlan = match self.plans.current_plan(&self.config, now_ms) {
            Ok(plan) => plan,
            Err(e) => {
                return Err(IpcError::Plan(e));
            },
        };
        let matching: bool = match &plan.current_tip_block_hash {
            Some(hash) => *hash == *parent_hash,
            None => false,
        };
        if !matching {
            return Err(IpcError::ParentMismatch);
        }
        if decode_hex(payout_script_hex.as_str()).is_err() {
            return Err(IpcError::InvalidPayoutScript);
        }
        match fee_bucket(
            self.fee_secret.as_slice(),
            plan.bitcoin_network.as_str(),
            parent_hash.as_str(),
            payout_script_hex.as_str(),
            unix_seconds,
            self.config.fee_basis_points,
        ) {
            Ok((bucket, fee_active)) => Ok(
                IpcData::FeeDecision {
                    bucket,
                    bucket_seconds: FEE_BUCKET_SECONDS,
                    fee_active,
                    fee_basis_points: self.config.fee_basis_points,
                },
            ),
            Err(e) => Err(IpcError::Fee(e)),
        }
    }

    /// Answers the request whose proof was to be stored, given whether it was.
    pub fn proof_queued(&mut self, stored: Result<(), String>) -> (response: IpcResponse<'static>)
        requires
            stored is Ok ==> old(self).metrics.queued_proofs < u64::MAX,
        ensures
            match stored {
                Ok(()) => response.grants(IpcData::Queued) && *final(self) == (Adapter {
                    metrics: Metrics {
                        queued_proofs: (old(self).metrics.queued_proofs + 1) as u64,
                        ..old(self).metrics
                    },
                    ..*old(self)
                }),
                Err(message) => response.refuses(IpcError::Failed(message)) && *final(self)
                    == *old(self),
            },
    {
        match stored {
            Ok(()) => {
                self.metrics.queued_proofs = self.metrics.queued_proofs + 1;
                IpcResponse::of(Ok(IpcData::Queued))
            },
            Err(message) => IpcResponse::of(Err(IpcError::Failed(message))),
        }
    }

    /// Answers the request whose batch was to be sent to the node, given whether it was.
    pub fn telemetry_posted(&mut self, sent: Result<(), String>) -> (response: IpcResponse<'static>)
        requires
            sent is Ok ==> old(self).metrics.telemetry_batches < u64::MAX,
        ensures
            match sent {
                Ok(()) => response.grants(IpcData::TelemetryAccepted) && *final(self) == (Adapter {
                    metrics: Metrics {
                        telemetry_batches: (old(self).metrics.telemetry_batches + 1) as u64,
                        ..old(self).metrics
                    },
                    ..*old(self)
                }),
                Err(message) => response.refuses(IpcError::Failed(message)) && *final(self)
                    == *old(self),
            },
    {
        match sent {
            Ok(()) => {
                self.metrics.telemetry_batches = self.metrics.telemetry_batches + 1;
                IpcResponse::of(Ok(IpcData::TelemetryAccepted))
            },
            Err(message) => IpcResponse::of(Err(IpcError::Failed(message))),
        }
    }

    /// Counts a share and answers its request. `sums` are the miner's sums with the share's
    /// difficulty added to each.
    pub fn record_share(&mut self, share: ShareReport, sums: WorkSums) -> (response: IpcResponse<
        'static,
    >)
        requires
            old(self).wf(),
            share.difficulty.is_share(),
            old(self).telemetry.gathered(share).has_room_for(share),
        ensures
            response.grants(IpcData::Recorded),
            final(self).wf(),
            final(self).telemetry@ == with_share(old(self).telemetry@, share, sums),
            final(self).config == old(self).config,
            final(self).fee_secret == old(self).fee_secret,
            final(self).plans == old(self).plans,
            final(self).metrics == old(self).metrics,
    {
        self.telemetry.record(share, sums);
        IpcResponse::of(Ok(IpcData::Recorded))
    }

    /// Settles a batch of gathered shares, given whether the node took it: one that was sent is
    /// counted, one that was not is put back. `sums` are, for each miner of a batch that is put
    /// back, the sums of what is put back and what was gathered since.
    pub fn flush_settled(
        &mut self,
        sent: bool,
        pending: Vec<TelemetryAccumulator>,
        sums: Vec<WorkSums>,
    )
        requires
            sent ==> old(self).metrics.telemetry_batches < u64::MAX,
            !sent ==> old(self).telemetry.wf() && well_kept(pending@) && sums@.len()
                == pending@.len() && old(self).telemetry.has_room_for_pending(pending@),
        ensures
            sent ==> *final(self) == (Adapter {
                metrics: Metrics {
                    telemetry_batches: (old(self).metrics.telemetry_batches + 1) as u64,
                    ..old(self).metrics
                },
                ..*old(self)
            }),
            !sent ==> final(self).telemetry@ == restored(
                old(self).telemetry@,
                by_miner(pending@),
                sums_by_miner(pending@, sums@),
            ) && final(self).config == old(self).config && final(self).fee_secret == old(
                self,
            ).fee_secret && final(self).plans == old(self).plans && final(self).metrics == old(
                self,
            ).metrics,
            old(self).wf() ==> final(self).wf(),
    {
        if sent {
            self.metrics.telemetry_batches = self.metrics.telemetry_batches + 1;
        } else {
            self.telemetry.restore(pending, sums);
        }
    }

    /// Counts an attempt to deliver a proof, once the queue is up to date.
    pub fn delivery_settled(&mut self, step: QueueStep)
        requires
            step is Remove ==> old(self).metrics.submitted_proofs < u64::MAX,
            !(step is Remove) ==> old(self).metrics.failed_proofs < u64::MAX,
        ensures
            *final(self) == (Adapter {
                metrics: if step is Remove {
                    Metrics {
                        submitted_proofs: (old(self).metrics.submitted_proofs + 1) as u64,
                        ..old(self).metrics
                    }
                } else {
                    Metrics {
                        failed_proofs: (old(self).metrics.failed_proofs + 1) as u64,
                        ..old(self).metrics
                    }
                },
                ..*old(self)
            }),
    {
        match step {
            QueueStep::Remove => {
                self.metrics.submitted_proofs = self.metrics.submitted_proofs + 1;
            },
            _ => {
                self.metrics.failed_proofs = self.metrics.failed_proofs + 1;
            },
        }
    }

    /// Whether a report tells the state at a time, with the depth of the queue where it could
    /// be read.
    pub open spec fn is_reported_by(
        self,
        report: HealthReport,
        queue_depth: Option<i64>,
        now_ms: u128,
    ) -> bool {
        &&& report.status@ == if self.plans.plan is Some && self.plans.is_fresh(
            self.config,
            now_ms,
        ) {
            "ready"@
        } else {
            "waiting-for-plan"@
        }
        &&& report.ipc_schema_version == IPC_SCHEMA_VERSION
        &&& match self.plans.plan {
            Some(plan) => {
                &&& report.plan_id == Some(plan.plan_id)
                &&& report.active_snapshot_id == Some(plan.active_snapshot_id)
                &&& report.parent_hash == plan.current_tip_block_hash
            },
            None => {
                &&& report.plan_id is None
                &&& report.active_snapshot_id is None
                &&& report.parent_hash is None
            },
        }
        &&& report.plan_updated_unix_ms == self.plans.updated_unix_ms
        &&& report.plan_age_ms == self.plans.age_ms(now_ms)
        &&& report.maximum_plan_age_seconds == self.config.maximum_plan_age_seconds
        &&& report.queue_depth == match queue_depth {
            Some(depth) => depth as int,
            None => -1,
        }
        &&& report.fee_basis_points == self.config.fee_basis_points
        &&& report.metrics == self.metrics
    }

    /// Reports the state. A queue whose depth could not be read counts as `-1` deep.
    pub fn health_value(&self, queue_depth: Option<i64>, now_ms: u128) -> (report: HealthReport)
        ensures
            self.is_reported_by(report, queue_depth, now_ms),
    {
        let ready: bool = self.plans.plan.is_some() && self.plans.plan_is_fresh(
            &self.config,
            now_ms,
        );
        let (plan_id, active_snapshot_id, parent_hash) = match &self.plans.plan {
            Some(plan) => (
                Some(plan.plan_id.clone()),
                Some(plan.active_snapshot_id.clone()),
                match &plan.current_tip_block_hash {
                    Some(hash) => Some(hash.clone()),
                    None => None,
                },
            ),
            None => (None, None, None),
        };
        HealthReport {
            status: if ready {
                "ready"
            } else {
                "waiting-for-plan"
            },
            ipc_schema_version: IPC_SCHEMA_VERSION,
            plan_id,
            active_snapshot_id,
            parent_hash,
            plan_updated_unix_ms: self.plans.updated_unix_ms,
            plan_age_ms: self.plans.plan_age_ms(now_ms),
            maximum_plan_age_seconds: self.config.maximum_plan_age_seconds,
            queue_depth: match queue_depth {
                Some(depth) => depth,
                None => -1,
            },
            fee_basis_points: self.config.fee_basis_points,
            metrics: self.metrics,
        }
    }

    /// Answers the request for the state.
    pub fn health_response(&self, queue_depth: Option<i64>, now_ms: u128) -> (response: IpcResponse<
        'static,
    >)
        ensures
            response matches IpcResponse::Success { schema_version, data: IpcData::Health(report) }
                && schema_version == IPC_SCHEMA_VERSION && self.is_reported_by(
                report,
                queue_depth,
                now_ms,
            ),
    {
        IpcResponse::of(Ok(IpcData::Health(self.health_value(queue_depth, now_ms))))
    }
}

/// A request in another version of the schema is refused, whatever it asks for.
pub proof fn other_schema_is_refused(adapter: Adapter, request: IpcRequest, now_ms: u128)
    requires
        request.version() != IPC_SCHEMA_VERSION,
    ensures
        adapter.refusal(request, now_ms) == Some(IpcError::UnsupportedSchema(request.version())),
{
}

/// Once the plan is older than the limit, neither the plan nor a fee decision is handed out.
pub proof fn stale_plan_refuses_plan_and_fee(
    adapter: Adapter,
    request: IpcRequest,
    now_ms: u128,
)
    requires
        request.version() == IPC_SCHEMA_VERSION,
        request is GetPlan || request is FeeDecision,
        adapter.plans.updated_unix_ms is Some,
        now_ms - adapter.plans.updated_unix_ms->0 > adapter.config.maximum_plan_age_seconds * 1_000,
    ensures
        adapter.refusal(request, now_ms) == Some(
            IpcError::Plan(
                crate::cache::PlanUnavailable::Stale {
                    age_ms: (now_ms - adapter.plans.updated_unix_ms->0) as u128,
                },
            ),
        ),
{
}

/// Without a plan neither a plan nor a fee decision is handed out.
pub proof fn missing_plan_refuses_plan_and_fee(
    adapter: Adapter,
    request: IpcRequest,
    now_ms: u128,
)
    requires
        adapter.wf(),
        adapter.plans.plan is None,
        request.version() == IPC_SCHEMA_VERSION,
        request is GetPlan || request is FeeDecision,
    ensures
        adapter.refusal(request, now_ms) == Some(
            IpcError::Plan(crate::cache::PlanUnavailable::NoPlan),
        ),
{
}

/// A fee decision is made for the parent block of the plan at hand and for no other.
pub proof fn fee_needs_the_current_parent(
    adapter: Adapter,
    parent_hash: Seq<char>,
    payout_script_hex: Seq<char>,
    now_ms: u128,
)
    requires
        adapter.fee_refusal(parent_hash, payout_script_hex, now_ms) is None,
    ensures
        adapter.plans.plan is Some,
        is_text(adapter.plans.plan->0.current_tip_block_hash, parent_hash),
{
}

/// With settings within their limits, a fee request for the current parent and a script in
/// hexadecimal always gets a decision while the plan is fresh.
pub proof fn fee_is_decided_for_the_current_plan(
    adapter: Adapter,
    parent_hash: Seq<char>,
    payout_script_hex: Seq<char>,
    now_ms: u128,
)
    requires
        adapter.config.within_limits(),
        adapter.plans.served(adapter.config, now_ms) is Ok,
        is_text(
            adapter.plans.served(adapter.config, now_ms)->Ok_0.current_tip_block_hash,
            parent_hash,
        ),
        is_hex(payout_script_hex),
    ensures
        adapter.fee_refusal(parent_hash, payout_script_hex, now_ms) is None,
{
}

/// The adapter reports that it is ready exactly when it hands out a plan.
pub proof fn ready_means_a_plan_is_served(
    adapter: Adapter,
    report: HealthReport,
    queue_depth: Option<i64>,
    now_ms: u128,
)
    requires
        adapter.is_reported_by(report, queue_depth, now_ms),
    ensures
        report.status@ == "ready"@ <==> adapter.plans.served(adapter.config, now_ms) is Ok,
{
    reveal_strlit("ready");
    reveal_strlit("waiting-for-plan");
    assert("ready"@.len() != "waiting-for-plan"@.len());
}

} // verus!
