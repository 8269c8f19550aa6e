//! The whole-run orchestrator's bookkeeping: one sync run covers the four
//! resource kinds in a fixed order, and one resource's failure must not
//! disturb any other's run or its reported outcome. The caller receives a
//! per-resource outcome map, not a single pass/fail.

use vstd::prelude::*;

use crate::error::SyncError;
use crate::sync::Resource;

verus! {

/// How one resource's run ended: success with the count of records
/// persisted, or failure with the error that stopped it.
#[derive(Debug, Clone, PartialEq, Eq)]
pub enum ResourceOutcome {
    Success { records: u64 },
    Failure { error: SyncError },
}

/// The per-resource outcomes of one whole sync run.
#[derive(Debug, Clone, PartialEq, Eq)]
pub struct RunReport {
    pub price_depth: Option<ResourceOutcome>,
    pub earnings: Option<ResourceOutcome>,
    pub swaps: Option<ResourceOutcome>,
    pub rune_pool: Option<ResourceOutcome>,
}

/// The report with one resource's outcome set and every other entry as it
/// was.
pub open spec fn spec_record(rep: RunReport, r: Resource, o: ResourceOutcome) -> RunReport {
    match r {
        Resource::PriceDepth => RunReport { price_depth: Some(o), ..rep },
        Resource::Earnings => RunReport { earnings: Some(o), ..rep },
        Resource::Swaps => RunReport { swaps: Some(o), ..rep },
        Resource::RunePool => RunReport { rune_pool: Some(o), ..rep },
    }
}

impl RunReport {
    /// The entry of one resource.
    pub open spec fn spec_outcome(&self, r: Resource) -> Option<ResourceOutcome> {
        match r {
            Resource::PriceDepth => self.price_depth,
            Resource::Earnings => self.earnings,
            Resource::Swaps => self.swaps,
            Resource::RunePool => self.rune_pool,
        }
    }

    /// Every resource has an outcome recorded.
    pub open spec fn spec_complete(&self) -> bool {
        &&& self.price_depth is Some
        &&& self.earnings is Some
        &&& self.swaps is Some
        &&& self.rune_pool is Some
    }

    /// Every resource ran and succeeded.
    pub open spec fn spec_all_succeeded(&self) -> bool {
        &&& self.price_depth matches Some(ResourceOutcome::Success { .. })
        &&& self.earnings matches Some(ResourceOutcome::Success { .. })
        &&& self.swaps matches Some(ResourceOutcome::Success { .. })
        &&& self.rune_pool matches Some(ResourceOutcome::Success { .. })
    }

    /// An empty report: no resource has run yet.
    pub fn new() -> (rep: RunReport)
        ensures
            rep.price_depth is None,
            rep.earnings is None,
            rep.swaps is None,
            rep.rune_pool is None,
    {
        RunReport { price_depth: None, earnings: None, swaps: None, rune_pool: None }
    }

    /// Records how one resource's run ended. Only that resource's entry
    /// changes: a failure here can never reach a sibling's outcome.
    pub fn record_outcome(&mut self, r: Resource, o: ResourceOutcome)
        ensures
            *final(self) == spec_record(*old(self), r, o),
            final(self).spec_outcome(r) == Some(o),
            forall|x: Resource| x != r ==> final(self).spec_outcome(x) == old(self).spec_outcome(
                x,
            ),
    {
        match r {
            Resource::PriceDepth => self.price_depth = Some(o),
            Resource::Earnings => self.earnings = Some(o),
            Resource::Swaps => self.swaps = Some(o),
            Resource::RunePool => self.rune_pool = Some(o),
        }
    }

    /// Reads one resource's entry back.
    pub fn outcome(&self, r: Resource) -> (o: &Option<ResourceOutcome>)
        ensures
            *o == self.spec_outcome(r),
    {
        match r {
            Resource::PriceDepth => &self.price_depth,
            Resource::Earnings => &self.earnings,
            Resource::Swaps => &self.swaps,
            Resource::RunePool => &self.rune_pool,
        }
    }

    /// Whether every resource ran and succeeded: the overall verdict the
    /// orchestrator's caller reports, computed only after all four ran.
    pub fn all_succeeded(&self) -> (b: bool)
        ensures
            b == self.spec_all_succeeded(),
    {
        let price_ok = match &self.price_depth {
            Some(ResourceOutcome::Success { .. }) => true,
            _ => false,
        };
        let earnings_ok = match &self.earnings {
            Some(ResourceOutcome::Success { .. }) => true,
            _ => false,
        };
        let swaps_ok = match &self.swaps {
            Some(ResourceOutcome::Success { .. }) => true,
            _ => false,
        };
        let rune_ok = match &self.rune_pool {
            Some(ResourceOutcome::Success { .. }) => true,
            _ => false,
        };
        price_ok && earnings_ok && swaps_ok && rune_ok
    }
}

/// The fixed order in which one run syncs the four resources.
pub fn resource_order() -> (v: Vec<Resource>)
    ensures
        v@ == seq![
            Resource::PriceDepth,
            Resource::Earnings,
            Resource::Swaps,
            Resource::RunePool,
        ],
{
    let mut v: Vec<Resource> = Vec::new();
    v.push(Resource::PriceDepth);
    v.push(Resource::Earnings);
    v.push(Resource::Swaps);
    v.push(Resource::RunePool);
    proof {
        assert(v@ =~= seq![
            Resource::PriceDepth,
            Resource::Earnings,
            Resource::Swaps,
            Resource::RunePool,
        ]);
    }
    v
}

/// Law: per-resource isolation. However the four runs end — failures
/// included — recording them in order yields a report that holds exactly
/// each resource's own outcome: no outcome can mask or overwrite another.
pub proof fn lemma_per_resource_isolation(
    a: ResourceOutcome,
    b: ResourceOutcome,
    c: ResourceOutcome,
    d: ResourceOutcome,
)
    ensures
        ({
            let empty = RunReport {
                price_depth: None,
                earnings: None,
                swaps: None,
                rune_pool: None,
            };
            let rep = spec_record(
                spec_record(
                    spec_record(spec_record(empty, Resource::PriceDepth, a), Resource::Earnings, b),
                    Resource::Swaps,
                    c,
                ),
                Resource::RunePool,
                d,
            );
            &&& rep.spec_outcome(Resource::PriceDepth) == Some(a)
            &&& rep.spec_outcome(Resource::Earnings) == Some(b)
            &&& rep.spec_outcome(Resource::Swaps) == Some(c)
            &&& rep.spec_outcome(Resource::RunePool) == Some(d)
            &&& rep.spec_complete()
        }),
{
}

} // verus!
