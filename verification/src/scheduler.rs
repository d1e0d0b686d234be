//! Background scheduling of competitions.

use vstd::prelude::*;

verus! {

/// Keeps competitions generated and moves them through their lifecycle.
pub struct CompetitionScheduler<S> {
    competitions_service: S,
}

impl<S> CompetitionScheduler<S> {
    pub fn new(competitions_service: S) -> (r: Self)
        ensures
            r.service() == competitions_service,
    {
        Self { competitions_service }
    }

    /// The service the scheduler drives.
    pub closed spec fn service(&self) -> S {
        self.competitions_service
    }

    /// Hands the driven service out, to start the scheduling loops with it.
    pub fn into_service(self) -> (r: S)
        ensures
            r == self.service(),
    {
        self.competitions_service
    }
}

/// A lifecycle tick is reported only when it activated or rewarded something.
pub fn lifecycle_tick_is_reportable(activated_count: usize, rewarded_count: usize) -> (r: bool)
    ensures
        r == (activated_count > 0 || rewarded_count > 0),
{
    activated_count > 0 || rewarded_count > 0
}

} // verus!
