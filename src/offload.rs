use vstd::prelude::*;
use vstd::string::*;
use crate::error::HttpError;
use crate::message::SERVICE_UNAVAILABLE;
use crate::outcome::Outcome;

verus! {

/// Admission to a worker pool: at most `capacity` offloaded invocations are
/// in flight (running or queued in the pool) at once.
pub struct WorkerPool {
    capacity: usize,
    in_flight: usize,
}

/// Whether a submission was taken.
#[derive(Clone, Copy, Debug, PartialEq, Eq, Structural)]
pub enum Admission {
    Accepted,
    Rejected,
}

impl View for WorkerPool {
    type V = (nat, nat);

    /// Capacity and the number in flight.
    closed spec fn view(&self) -> (nat, nat) {
        (self.capacity as nat, self.in_flight as nat)
    }
}

impl WorkerPool {
    /// Well-formed: no more in flight than the capacity.
    pub open spec fn wf(&self) -> bool {
        self@.1 <= self@.0
    }

    /// A pool that admits `capacity` invocations at once; the bound is the
    /// integrator's choice.
    pub fn new(capacity: usize) -> (p: WorkerPool)
        ensures
            p@ == (capacity as nat, 0nat),
            p.wf(),
    {
        WorkerPool { capacity, in_flight: 0 }
    }

    /// The number of invocations in flight.
    pub fn in_flight(&self) -> (n: usize)
        ensures
            n == self@.1,
    {
        self.in_flight
    }

    /// Submits one invocation: taken while there is room, refused otherwise.
    pub fn submit(&mut self) -> (a: Admission)
        requires
            old(self).wf(),
        ensures
            final(self).wf(),
            old(self)@.1 < old(self)@.0 ==> a == Admission::Accepted && final(self)@ == (
                old(self)@.0,
                old(self)@.1 + 1,
            ),
            old(self)@.1 >= old(self)@.0 ==> a == Admission::Rejected && final(self)@ == old(
                self,
            )@,
    {
        if self.in_flight < self.capacity {
            self.in_flight = self.in_flight + 1;
            Admission::Accepted
        } else {
            Admission::Rejected
        }
    }

    /// Records that an accepted invocation has finished, and passes on what
    /// it settled to: its outcome unchanged, or an underlying error if the
    /// pool lost it.
    pub fn complete<S>(&mut self, result: Option<Outcome<S>>) -> (o: Outcome<S>)
        requires
            old(self).wf(),
            old(self)@.1 > 0,
        ensures
            final(self).wf(),
            final(self)@ == (old(self)@.0, (old(self)@.1 - 1) as nat),
            offload_result(result, o),
    {
        self.in_flight = self.in_flight - 1;
        match result {
            Some(out) => out,
            None => Outcome::Failed(HttpError::Underlying(String::from_str("offloaded work was lost"))),
        }
    }
}

/// The outcome an offloaded invocation answers with, given what the pool
/// gave back.
pub open spec fn offload_result<S>(result: Option<Outcome<S>>, o: Outcome<S>) -> bool {
    match result {
        Some(out) => o == out,
        None => o matches Outcome::Failed(HttpError::Underlying(_)),
    }
}

/// Offloading does not change what a middleware settles to: whenever the pool
/// gives back the outcome of running it, that outcome is the answer.
pub proof fn lemma_offload_keeps_outcome<S>(out: Outcome<S>, o: Outcome<S>)
    requires
        offload_result(Some(out), o),
    ensures
        o == out,
{
}

/// The outcome of an offloaded middleware that the pool refused: a 503 error.
pub fn overloaded<S>() -> (o: Outcome<S>)
    ensures
        o matches Outcome::Failed(HttpError::Status(code)) && code == SERVICE_UNAVAILABLE,
{
    Outcome::Failed(HttpError::Status(SERVICE_UNAVAILABLE))
}

} // verus!
