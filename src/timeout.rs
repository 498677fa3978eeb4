use vstd::prelude::*;
use crate::error::HttpError;
use crate::message::{Response, REQUEST_TIMEOUT, INTERNAL_SERVER_ERROR};
use crate::outcome::Outcome;

verus! {

/// The side of a race between a timer and a chain that settled first.
#[derive(Clone, Copy, Debug, PartialEq, Eq, Structural)]
pub enum Racer {
    Timer,
    Chain,
}

/// Which side wins when the timer fires at `duration` and the chain settles
/// at `ready_at` (never, if `None`): the chain only if it is strictly earlier.
pub open spec fn winner_of(duration: u64, ready_at: Option<u64>) -> Racer {
    match ready_at {
        Some(t) => if t < duration {
            Racer::Chain
        } else {
            Racer::Timer
        },
        None => Racer::Timer,
    }
}

/// When the race is decided.
pub open spec fn decided_at(duration: u64, ready_at: Option<u64>) -> u64 {
    match winner_of(duration, ready_at) {
        Racer::Chain => ready_at->0,
        Racer::Timer => duration,
    }
}

/// Decides a race: the winner, and the time at which it is decided.
pub fn race(duration: u64, ready_at: Option<u64>) -> (r: (Racer, u64))
    ensures
        r.0 == winner_of(duration, ready_at),
        r.1 == decided_at(duration, ready_at),
{
    match ready_at {
        Some(t) => if t < duration {
            (Racer::Chain, t)
        } else {
            (Racer::Timer, duration)
        },
        None => (Racer::Timer, duration),
    }
}

/// What settled first in a timeout race.
pub enum RaceEvent<S> {
    /// The timer fired.
    TimerFired,
    /// The timer itself failed before firing.
    TimerFailed,
    /// The chain settled with this outcome.
    Settled(Outcome<S>),
}

/// The outcome of a timeout race, given what settled first: an empty 408 if
/// the timer fired, a 500 error if the timer failed, and otherwise the
/// chain's outcome unchanged.
pub fn resolve_race<S>(event: RaceEvent<S>) -> (o: Outcome<S>)
    ensures
        match event {
            RaceEvent::TimerFired => o matches Outcome::Terminate(r) && r.status == REQUEST_TIMEOUT
                && r.headers@.len() == 0 && r.body@.len() == 0,
            RaceEvent::TimerFailed => o matches Outcome::Failed(HttpError::Status(code)) && code
                == INTERNAL_SERVER_ERROR,
            RaceEvent::Settled(out) => o == out,
        },
{
    match event {
        RaceEvent::TimerFired => Outcome::Terminate(Response::with_status(REQUEST_TIMEOUT)),
        RaceEvent::TimerFailed => Outcome::Failed(HttpError::Status(INTERNAL_SERVER_ERROR)),
        RaceEvent::Settled(out) => out,
    }
}

/// A chain that settles in half the timeout wins the race, at that time; one
/// that takes twice the timeout, or never settles, loses to the timer, which
/// decides the race at the timeout itself.
pub proof fn lemma_timeout_race(duration: u64)
    requires
        duration > 0,
        duration * 2 <= u64::MAX,
    ensures
        winner_of(duration, Some(duration / 2)) == Racer::Chain,
        decided_at(duration, Some(duration / 2)) == duration / 2,
        winner_of(duration, Some((duration * 2) as u64)) == Racer::Timer,
        decided_at(duration, Some((duration * 2) as u64)) == duration,
        winner_of(duration, None) == Racer::Timer,
        decided_at(duration, None) == duration,
{
}

} // verus!
