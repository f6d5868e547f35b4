//! The interface of the GridPool node: where its services are and how the adapter presents
//! itself.

use vstd::prelude::*;

use crate::text::{endpoint, same_text, without_trailing_slashes};

verus! {

/// A service of the node.
#[derive(Debug, Clone, Copy, PartialEq, Eq, Structural)]
pub enum Service {
    WorkPlanEvents,
    WorkPlan,
    Share,
    ShareTelemetry,
}

impl Service {
    /// The path of the service.
    pub open spec fn path_text(self) -> Seq<char> {
        match self {
            Service::WorkPlanEvents => "/api/mining/local/work-plan/events"@,
            Service::WorkPlan => "/api/mining/local/work-plan"@,
            Service::Share => "/api/mining/local/share"@,
            Service::ShareTelemetry => "/api/mining/local/share-telemetry"@,
        }
    }

    fn path(&self) -> (path: &'static str)
        ensures
            path@ == self.path_text(),
    {
        match self {
            Service::WorkPlanEvents => "/api/mining/local/work-plan/events",
            Service::WorkPlan => "/api/mining/local/work-plan",
            Service::Share => "/api/mining/local/share",
            Service::ShareTelemetry => "/api/mining/local/share-telemetry",
        }
    }

    /// Returns the address of the service on the node at `gridpool_url`.
    pub fn url(&self, gridpool_url: &str) -> (url: String)
        ensures
            url@ == without_trailing_slashes(gridpool_url@) + self.path_text(),
    {
        endpoint(gridpool_url, self.path())
    }
}

/// A header of a request.
#[derive(Debug, Clone)]
pub struct Header {
    pub name: &'static str,
    pub value: String,
}

/// Returns the headers by which the adapter presents itself, given its token.
pub fn adapter_headers(token: &str) -> (headers: Vec<Header>)
    ensures
        headers@.len() == 2,
        headers@[0].name@ == "X-GridPool-Adapter-Token"@,
        headers@[0].value@ == token@,
        headers@[1].name@ == "X-GridPool-Adapter-Type"@,
        headers@[1].value@ == "ckpool"@,
{
    vec![
        Header { name: "X-GridPool-Adapter-Token", value: token.to_owned() },
        Header { name: "X-GridPool-Adapter-Type", value: "ckpool".to_owned() },
    ]
}

/// Whether an event of the node's stream carries a plan: a new plan, a heartbeat, or an event
/// without a name.
pub open spec fn carries_plan(event: Seq<char>) -> bool {
    event == "work-plan"@ || event == "heartbeat"@ || event.len() == 0
}

/// Tells whether an event of the node's stream carries a plan.
pub fn is_plan_event(event: &str) -> (is: bool)
    ensures
        is == carries_plan(event@),
{
    same_text(event, "work-plan") || same_text(event, "heartbeat") || event.is_empty()
}

} // verus!
