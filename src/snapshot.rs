use vstd::prelude::*;
use crate::gateway::GatewayError;

verus! {

/// The latest fetch of a read-only resource (a balance, an escrow account).
/// A fetch result replaces the previous one wholesale. Each fetch gets a new
/// generation; the result of a fetch superseded by a later one is discarded.
pub struct Snapshot<T> {
    pub generation: u64,
    pub in_flight: bool,
    pub latest: Option<Result<T, GatewayError>>,
}

impl<T> Snapshot<T> {
    /// Nothing fetched yet.
    pub fn new() -> (r: Snapshot<T>)
        ensures
            r.generation == 0,
            !r.in_flight,
            r.latest is None,
    {
        Snapshot { generation: 0, in_flight: false, latest: None }
    }

    /// Starts a fetch, superseding any in flight; returns its generation.
    pub fn begin_fetch(&mut self) -> (g: u64)
        ensures
            g == final(self).generation,
            g == (if old(self).generation == u64::MAX { 0 } else { (old(self).generation + 1) as u64 }),
            final(self).in_flight,
            final(self).latest == old(self).latest,
    {
        self.generation = if self.generation == u64::MAX { 0 } else { self.generation + 1 };
        self.in_flight = true;
        self.generation
    }

    /// Takes the result of the fetch of `generation`. It replaces the latest
    /// value when it answers the fetch in flight; otherwise it is discarded.
    /// Returns whether it was applied.
    pub fn fetched(&mut self, generation: u64, result: Result<T, GatewayError>) -> (applied: bool)
        ensures
            applied == (old(self).in_flight && generation == old(self).generation),
            final(self).generation == old(self).generation,
            applied ==> final(self).latest == Some(result) && !final(self).in_flight,
            !applied ==> final(self).latest == old(self).latest && final(self).in_flight == old(self).in_flight,
    {
        if self.in_flight && generation == self.generation {
            self.latest = Some(result);
            self.in_flight = false;
            true
        } else {
            false
        }
    }
}

} // verus!
