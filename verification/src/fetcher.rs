//! The concurrency-limited transport discipline: a counting semaphore over
//! in-flight requests.
//!
//! The fetcher holds the only mutable shared state of the pipeline, the
//! admission count. Acquire and release keep the count within the fixed
//! capacity, and the event model below shows that no submission pattern can
//! drive the count past the capacity.

use vstd::prelude::*;

verus! {

/// The admission state of the concurrency-limited transport: a fixed
/// capacity and the number of requests currently in flight.
pub struct BoundedFetcher {
    capacity: u64,
    in_flight: u64,
}

/// One step a caller can take against the fetcher: submit a request, or
/// finish one (by success, failure, or abandonment — every exit path
/// releases its slot).
#[derive(Clone, Copy, PartialEq, Eq, Structural, Debug)]
pub enum FetchStep {
    Submit,
    Finish,
}

/// The admission count after one step: a submission is admitted only below
/// capacity, and a finish releases one held slot.
pub open spec fn step_count(capacity: nat, count: nat, step: FetchStep) -> nat {
    match step {
        FetchStep::Submit => if count < capacity {
            count + 1
        } else {
            count
        },
        FetchStep::Finish => if count > 0 {
            (count - 1) as nat
        } else {
            count
        },
    }
}

/// The admission count after a whole sequence of steps.
pub open spec fn run_steps(capacity: nat, count: nat, steps: Seq<FetchStep>) -> nat
    decreases steps.len(),
{
    if steps.len() == 0 {
        count
    } else {
        run_steps(capacity, step_count(capacity, count, steps[0]), steps.drop_first())
    }
}

/// Under any submission pattern — submissions and completions interleaved in
/// any order, including requests that fail immediately — the admission count
/// never exceeds the capacity.
pub proof fn lemma_bound_never_exceeded(capacity: nat, count: nat, steps: Seq<FetchStep>)
    requires
        count <= capacity,
    ensures
        run_steps(capacity, count, steps) <= capacity,
    decreases steps.len(),
{
    if steps.len() > 0 {
        lemma_bound_never_exceeded(capacity, step_count(capacity, count, steps[0]), steps.drop_first());
    }
}

impl BoundedFetcher {
    /// The configured capacity.
    pub closed spec fn spec_capacity(self) -> u64 {
        self.capacity
    }

    /// The number of requests currently in flight.
    pub closed spec fn spec_in_flight(self) -> u64 {
        self.in_flight
    }

    /// The semaphore invariant: in-flight requests never exceed capacity.
    pub open spec fn wf(self) -> bool {
        self.spec_in_flight() <= self.spec_capacity()
    }

    /// A fetcher with the given capacity and nothing in flight.
    pub fn new(capacity: u64) -> (r: BoundedFetcher)
        ensures
            r.wf(),
            r.spec_capacity() == capacity,
            r.spec_in_flight() == 0,
    {
        BoundedFetcher { capacity, in_flight: 0 }
    }

    /// Tries to admit one request: admits exactly when the fetcher is below
    /// capacity, matching one `Submit` step of the event model. A caller
    /// that is refused must wait and try again.
    pub fn try_acquire(&mut self) -> (admitted: bool)
        requires
            old(self).wf(),
        ensures
            final(self).wf(),
            final(self).spec_capacity() == old(self).spec_capacity(),
            admitted == (old(self).spec_in_flight() < old(self).spec_capacity()),
            final(self).spec_in_flight() == step_count(
                old(self).spec_capacity() as nat,
                old(self).spec_in_flight() as nat,
                FetchStep::Submit,
            ),
    {
        if self.in_flight < self.capacity {
            self.in_flight = self.in_flight + 1;
            true
        } else {
            false
        }
    }

    /// Releases one admitted request's slot, matching one `Finish` step of
    /// the event model. Called on every exit path: success, failure, or
    /// abandonment.
    pub fn release(&mut self)
        requires
            old(self).wf(),
            old(self).spec_in_flight() >= 1,
        ensures
            final(self).wf(),
            final(self).spec_capacity() == old(self).spec_capacity(),
            final(self).spec_in_flight() == step_count(
                old(self).spec_capacity() as nat,
                old(self).spec_in_flight() as nat,
                FetchStep::Finish,
            ),
    {
        self.in_flight = self.in_flight - 1;
    }

    /// The capacity, readable by callers.
    pub fn capacity(&self) -> (r: u64)
        ensures
            r == self.spec_capacity(),
    {
        self.capacity
    }

    /// The current in-flight count, readable by callers.
    pub fn in_flight(&self) -> (r: u64)
        ensures
            r == self.spec_in_flight(),
    {
        self.in_flight
    }
}

} // verus!
