//! The node's interface.

use vstd::prelude::*;

use crate::node::{adapter_headers, is_plan_event, Header, Service};
use crate::text::endpoint;

verus! {

/// The address of a service is its path on the node.
pub proof fn services_have_their_paths(
    service: &Service,
    base: &str,
    url: String,
    path: &str,
    address: String,
)
    requires
        call_ensures(Service::url, (service, base), url),
        call_ensures(endpoint, (base, path), address),
        path@ == match *service {
            Service::WorkPlanEvents => "/api/mining/local/work-plan/events"@,
            Service::WorkPlan => "/api/mining/local/work-plan"@,
            Service::Share => "/api/mining/local/share"@,
            Service::ShareTelemetry => "/api/mining/local/share-telemetry"@,
        },
    ensures
        url@ == address@,
{
}

/// The adapter shows its token and its kind, and nothing else.
pub proof fn headers_show_token_and_kind(token: &str, headers: Vec<Header>)
    requires
        call_ensures(adapter_headers, (token,), headers),
    ensures
        headers@.len() == 2,
        headers@[0].name@ == "X-GridPool-Adapter-Token"@,
        headers@[0].value@ == token@,
        headers@[1].name@ == "X-GridPool-Adapter-Type"@,
        headers@[1].value@ == "ckpool"@,
{
}

/// Events that are named after plans or heartbeats, or not named, carry a plan. No others do.
pub proof fn plans_heartbeats_and_nameless_events_carry_plans(event: &str, is: bool)
    requires
        call_ensures(is_plan_event, (event,), is),
    ensures
        is <==> event@ == "work-plan"@ || event@ == "heartbeat"@ || event@ == Seq::<char>::empty(),
{
    if event@.len() == 0 {
        assert(event@ =~= Seq::<char>::empty());
    }
}

} // verus!
