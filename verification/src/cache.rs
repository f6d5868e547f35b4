//! The current payout plan and its age.

use vstd::prelude::*;

use crate::config::Config;
use crate::plan::{PlanError, WorkPlan};
use crate::text::{decimal, decimal_text, join3};

verus! {

/// The last plan that was accepted, and when the node last confirmed it.
#[derive(Debug, Clone)]
pub struct PlanCache {
    pub plan: Option<WorkPlan>,
    pub updated_unix_ms: Option<u128>,
}

/// Why there is no plan to work with.
#[derive(Debug, Clone, Copy, PartialEq, Eq, Structural)]
pub enum PlanUnavailable {
    NoPlan,
    Stale { age_ms: u128 },
}

impl PlanUnavailable {
    /// The message that describes the error.
    pub open spec fn text(self) -> Seq<char> {
        match self {
            PlanUnavailable::NoPlan => "no valid GridPool work plan"@,
            PlanUnavailable::Stale { age_ms } => "GridPool work plan is stale ("@ + decimal(
                age_ms as nat,
            ) + " ms old)"@,
        }
    }

    /// Returns the message that describes the error.
    pub fn message(&self) -> (message: String)
        ensures
            message@ == self.text(),
    {
        match self {
            PlanUnavailable::NoPlan => "no valid GridPool work plan".to_owned(),
            PlanUnavailable::Stale { age_ms } => join3(
                "GridPool work plan is stale (",
                decimal_text(*age_ms).as_str(),
                " ms old)",
            ),
        }
    }
}

/// The age that a plan may reach, in milliseconds.
pub open spec fn age_limit_ms(config: Config) -> int {
    config.maximum_plan_age_seconds * 1_000
}

impl PlanCache {
    /// A cache holds a plan exactly when it knows the plan's age, and the plan is valid.
    pub open spec fn wf(self, config: Config) -> bool {
        &&& self.plan is Some <==> self.updated_unix_ms is Some
        &&& self.plan is Some ==> self.plan->0.is_valid(config)
    }

    /// How long ago the node last confirmed the plan. A clock that went back counts as no age.
    pub open spec fn age_ms(self, now_ms: u128) -> Option<u128> {
        match self.updated_unix_ms {
            None => None,
            Some(updated) => Some(
                if now_ms < updated {
                    0
                } else {
                    (now_ms - updated) as u128
                },
            ),
        }
    }

    /// Whether the plan's age is known and within the limit.
    pub open spec fn is_fresh(self, config: Config, now_ms: u128) -> bool {
        self.age_ms(now_ms) is Some && self.age_ms(now_ms)->0 <= age_limit_ms(config)
    }

    /// The plan that is served at a time, or why none is.
    pub open spec fn served(self, config: Config, now_ms: u128) -> Result<
        WorkPlan,
        PlanUnavailable,
    > {
        match self.age_ms(now_ms) {
            None => Err(PlanUnavailable::NoPlan),
            Some(age_ms) => if age_ms > age_limit_ms(config) {
                Err(PlanUnavailable::Stale { age_ms })
            } else {
                match self.plan {
                    None => Err(PlanUnavailable::NoPlan),
                    Some(plan) => Ok(plan),
                }
            },
        }
    }

    /// Whether a plan is another one than the plan at hand.
    pub open spec fn differs_from(self, plan: WorkPlan) -> bool {
        self.plan is None || self.plan->0.plan_id@ != plan.plan_id@
    }

    /// The cache after a valid plan arrived: another plan takes the place of the one at hand,
    /// the same plan confirms it.
    pub open spec fn installed(self, plan: WorkPlan, now_ms: u128) -> PlanCache {
        PlanCache {
            plan: if self.differs_from(plan) {
                Some(plan)
            } else {
                self.plan
            },
            updated_unix_ms: Some(now_ms),
        }
    }

    /// Makes a cache without a plan.
    pub fn new() -> (cache: PlanCache)
        ensures
            cache == (PlanCache { plan: None, updated_unix_ms: None }),
            forall|config: Config| cache.wf(config),
    {
        PlanCache { plan: None, updated_unix_ms: None }
    }

    /// Takes over a plan that arrived, if it is valid, and tells whether it is another one than
    /// the plan at hand.
    pub fn install_plan(&mut self, config: &Config, plan: WorkPlan, now_ms: u128) -> (changed:
        Result<bool, PlanError>)
        ensures
            changed is Ok <==> plan.is_valid(*config),
            changed is Ok ==> *final(self) == old(self).installed(plan, now_ms) && changed->Ok_0
                == old(self).differs_from(plan),
            changed is Err ==> *final(self) == *old(self) && changed->Err_0 == plan.refusal(
                *config,
            ),
            old(self).wf(*config) ==> final(self).wf(*config),
    {
        match plan.validate(config) {
            Ok(()) => {},
            Err(e) => {
                return Err(e);
            },
        }
        let changed: bool = match &self.plan {
            None => true,
            Some(current) => !(current.plan_id == plan.plan_id),
        };
        if changed {
            self.plan = Some(plan);
        }
        self.updated_unix_ms = Some(now_ms);
        Ok(changed)
    }

    /// Returns how long ago the node last confirmed the plan.
    pub fn plan_age_ms(&self, now_ms: u128) -> (age: Option<u128>)
        ensures
            age == self.age_ms(now_ms),
    {
        match self.updated_unix_ms {
            None => None,
            Some(updated) => Some(now_ms.saturating_sub(updated)),
        }
    }

    /// Tells whether the plan's age is known and within the limit.
    pub fn plan_is_fresh(&self, config: &Config, now_ms: u128) -> (fresh: bool)
        ensures
            fresh == self.is_fresh(*config, now_ms),
    {
        match self.plan_age_ms(now_ms) {
            None => false,
            Some(age_ms) => age_ms <= config.maximum_plan_age_seconds as u128 * 1_000,
        }
    }

    /// Returns the plan to work with.
    pub fn current_plan(&self, config: &Config, now_ms: u128) -> (plan: Result<
        &WorkPlan,
        PlanUnavailable,
    >)
        ensures
            match self.served(*config, now_ms) {
                Ok(current) => plan is Ok && *plan->Ok_0 == current,
                Err(e) => plan is Err && plan->Err_0 == e,
            },
    {
        let age_ms: u128 = match self.plan_age_ms(now_ms) {
            None => {
                return Err(PlanUnavailable::NoPlan);
            },
            Some(age_ms) => age_ms,
        };
        if age_ms > config.maximum_plan_age_seconds as u128 * 1_000 {
            return Err(PlanUnavailable::Stale { age_ms });
        }
        match &self.plan {
            None => Err(PlanUnavailable::NoPlan),
            Some(plan) => Ok(plan),
        }
    }
}

/// A plan that is served is valid, and its age is within the limit.
pub proof fn served_plan_is_valid_and_fresh(cache: PlanCache, config: Config, now_ms: u128)
    requires
        cache.wf(config),
        cache.served(config, now_ms) is Ok,
    ensures
        cache.served(config, now_ms)->Ok_0.is_valid(config),
        cache.is_fresh(config, now_ms),
{
}

/// Once the node has not confirmed the plan for longer than the limit, no plan is served.
pub proof fn stale_plan_is_refused(cache: PlanCache, config: Config, now_ms: u128)
    requires
        cache.updated_unix_ms is Some,
        now_ms - cache.updated_unix_ms->0 > age_limit_ms(config),
    ensures
        cache.served(config, now_ms) == Err::<WorkPlan, PlanUnavailable>(
            PlanUnavailable::Stale { age_ms: (now_ms - cache.updated_unix_ms->0) as u128 },
        ),
{
}

/// From its arrival on until the limit a plan is served under its name, also where it only
/// confirms the plan at hand.
pub proof fn installed_plan_is_served(
    cache: PlanCache,
    config: Config,
    plan: WorkPlan,
    arrival_ms: u128,
    now_ms: u128,
)
    requires
        now_ms - arrival_ms <= age_limit_ms(config),
    ensures
        cache.installed(plan, arrival_ms).served(config, now_ms) is Ok,
        cache.installed(plan, arrival_ms).served(config, now_ms)->Ok_0.plan_id@ == plan.plan_id@,
        cache.differs_from(plan) ==> cache.installed(plan, arrival_ms).served(config, now_ms)->Ok_0
            == plan,
{
}

/// A confirmation of the plan at hand refreshes its age and leaves the plan as it is.
pub proof fn confirmation_only_refreshes(cache: PlanCache, plan: WorkPlan, now_ms: u128)
    requires
        !cache.differs_from(plan),
    ensures
        cache.installed(plan, now_ms).plan == cache.plan,
        cache.installed(plan, now_ms).age_ms(now_ms) == Some(0u128),
{
}

} // verus!
