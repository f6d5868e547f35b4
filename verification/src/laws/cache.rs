//! The current plan.

use vstd::prelude::*;

use crate::cache::{PlanCache, PlanUnavailable};
use crate::config::Config;
use crate::plan::{PlanError, WorkPlan};
use crate::text::decimal;

verus! {

/// A new cache holds no plan.
pub proof fn new_caches_are_empty(cache: PlanCache)
    requires
        call_ensures(PlanCache::new, (), cache),
    ensures
        cache.plan is None,
        cache.updated_unix_ms is None,
{
}

/// A plan that validation accepts is taken over under its name: it takes the place of a plan of
/// another name, and leaves one of the same name as it is. Either way the time is that of the
/// arrival. A plan that validation refuses changes nothing, and the error is the same.
pub proof fn valid_plans_are_installed(
    cache: &mut PlanCache,
    config: &Config,
    plan: WorkPlan,
    now_ms: u128,
    changed: Result<bool, PlanError>,
    verdict: Result<(), PlanError>,
)
    requires
        call_ensures(PlanCache::install_plan, (cache, config, plan, now_ms), changed),
        call_ensures(WorkPlan::validate, (&plan, config), verdict),
    ensures
        verdict is Ok <==> changed is Ok,
        verdict is Err ==> changed->Err_0 == verdict->Err_0 && *final(cache) == *old(cache),
        verdict is Ok ==> {
            let another = old(cache).plan is None || old(cache).plan->0.plan_id@ != plan.plan_id@;
            &&& changed->Ok_0 == another
            &&& final(cache).updated_unix_ms == Some(now_ms)
            &&& another ==> final(cache).plan == Some(plan)
            &&& !another ==> final(cache).plan == old(cache).plan
        },
{
}

/// The age of a plan is the time since it last arrived, and none where the clock went back.
pub proof fn age_counts_from_the_last_arrival(cache: &PlanCache, now_ms: u128, age: Option<u128>)
    requires
        call_ensures(PlanCache::plan_age_ms, (cache, now_ms), age),
    ensures
        cache.updated_unix_ms is None <==> age is None,
        cache.updated_unix_ms matches Some(updated) ==> age->0 == if updated <= now_ms {
            now_ms - updated
        } else {
            0
        },
{
}

/// A plan is fresh as long as its age in milliseconds is at most a thousand times the lifetime in
/// seconds.
pub proof fn plans_are_fresh_up_to_their_lifetime(
    cache: &PlanCache,
    config: &Config,
    now_ms: u128,
    fresh: bool,
)
    requires
        call_ensures(PlanCache::plan_is_fresh, (cache, config, now_ms), fresh),
    ensures
        fresh <==> cache.updated_unix_ms is Some && now_ms - cache.updated_unix_ms->0 <= 1_000
            * config.maximum_plan_age_seconds,
{
}

/// The plan at hand is handed out while it is fresh. Without an arrival there is none, and beyond
/// its lifetime it is refused with its age.
pub proof fn fresh_plans_are_served(
    cache: &PlanCache,
    config: &Config,
    now_ms: u128,
    served: Result<&WorkPlan, PlanUnavailable>,
)
    requires
        call_ensures(PlanCache::current_plan, (cache, config, now_ms), served),
    ensures
        cache.updated_unix_ms is None ==> served is Err && served->Err_0 is NoPlan,
        cache.updated_unix_ms matches Some(updated) ==> {
            let age = now_ms - updated;
            let limit = 1_000 * config.maximum_plan_age_seconds;
            &&& age > limit ==> served is Err && served->Err_0 == (PlanUnavailable::Stale {
                age_ms: age as u128,
            })
            &&& age <= limit && cache.plan is None ==> served is Err && served->Err_0 is NoPlan
            &&& age <= limit && cache.plan is Some ==> served is Ok && *served->Ok_0
                == cache.plan->0
        },
{
}

/// Calls in a row: a plan that was installed is handed out until its lifetime is over, and not a
/// millisecond longer unless it arrives again.
pub proof fn installed_plans_are_served_for_their_lifetime(
    cache: &mut PlanCache,
    config: &Config,
    plan: WorkPlan,
    arrival_ms: u128,
    changed: Result<bool, PlanError>,
    later: &PlanCache,
    now_ms: u128,
    served: Result<&WorkPlan, PlanUnavailable>,
)
    requires
        call_ensures(PlanCache::install_plan, (cache, config, plan, arrival_ms), changed),
        changed is Ok,
        *later == *final(cache),
        call_ensures(PlanCache::current_plan, (later, config, now_ms), served),
    ensures
        served is Ok <==> now_ms - arrival_ms <= 1_000 * config.maximum_plan_age_seconds,
        served is Ok ==> served->Ok_0.plan_id@ == plan.plan_id@,
        served is Ok && changed->Ok_0 ==> *served->Ok_0 == plan,
{
}

/// A cache in order stays in order: a plan is there exactly when its time is, and it is valid.
pub proof fn caches_stay_in_order(
    cache: &mut PlanCache,
    config: &Config,
    plan: WorkPlan,
    now_ms: u128,
    changed: Result<bool, PlanError>,
)
    requires
        call_ensures(PlanCache::install_plan, (cache, config, plan, now_ms), changed),
        old(cache).wf(*config),
    ensures
        final(cache).plan is Some <==> final(cache).updated_unix_ms is Some,
        final(cache).plan is Some ==> final(cache).plan->0.is_valid(*config),
{
}

/// The messages of the errors.
pub proof fn missing_plans_are_told(error: &PlanUnavailable, message: String)
    requires
        call_ensures(PlanUnavailable::message, (error,), message),
    ensures
        match *error {
            PlanUnavailable::NoPlan => message@ == "no valid GridPool work plan"@,
            PlanUnavailable::Stale { age_ms } => message@ == "GridPool work plan is stale ("@
                + decimal(age_ms as nat) + " ms old)"@,
        },
{
}

} // verus!
