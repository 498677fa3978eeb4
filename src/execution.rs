use vstd::prelude::*;
use crate::message::{Request, Response};
use crate::outcome::{Outcome, Settled, settled_of};

verus! {

/// Where a request's execution stands.
#[derive(Clone, Copy, Debug, PartialEq, Eq, Structural)]
pub enum Phase {
    /// About to invoke the unit at the cursor (the fallback past the end).
    Ready,
    /// A middleware was invoked and has not settled yet.
    Awaiting,
    /// The fallback was invoked and has not settled yet.
    AwaitingFallback,
    /// Forward traversal is over; after-hooks are being run.
    Unwinding,
    /// Every after-hook has run.
    Finished,
}

/// What the driver of an execution must do next.
#[derive(Clone, Copy, Debug, PartialEq, Eq, Structural)]
pub enum Action {
    /// Invoke the middleware at this position and report how it settled.
    Invoke(usize),
    /// Invoke the terminal fallback and report how it settled.
    Fallback,
    /// Run the after-hook of the middleware at this position.
    After(usize),
    /// An invocation is still pending: report its outcome first.
    Wait,
    /// Execution is over: materialize the outcome it ended with.
    Finish,
    /// The outcome has been handed out; nothing is left to do.
    Done,
}

/// The abstract state of an execution.
pub struct ExecState {
    pub len: nat,
    pub cursor: nat,
    /// Positions of the middleware entered and whose after-hook is still owed,
    /// the most recent last.
    pub entered: Seq<usize>,
    pub phase: Phase,
}

/// The positions `0, 1, ..., n - 1`.
pub open spec fn upto(n: nat) -> Seq<usize> {
    Seq::new(n, |i: int| i as usize)
}

/// The state in which a request enters a pipeline of `len` middleware.
pub open spec fn start(len: nat) -> ExecState {
    ExecState { len, cursor: 0, entered: Seq::empty(), phase: Phase::Ready }
}

/// A state that an execution can reach from `start`.
pub open spec fn reachable(s: ExecState) -> bool {
    &&& s.cursor <= s.len
    &&& match s.phase {
        Phase::Ready => s.entered == upto(s.cursor),
        Phase::Awaiting => s.cursor < s.len && s.entered == upto(s.cursor + 1),
        Phase::AwaitingFallback => s.cursor == s.len && s.entered == upto(s.cursor),
        Phase::Unwinding => s.entered.len() <= s.len && s.entered == upto(s.entered.len()),
        Phase::Finished => s.entered.len() == 0,
    }
}

/// Whether an invocation has been handed out and not yet reported.
pub open spec fn awaiting(s: ExecState) -> bool {
    s.phase == Phase::Awaiting || s.phase == Phase::AwaitingFallback
}

/// The action the driver is given in state `s`.
pub open spec fn action_of(s: ExecState) -> Action {
    match s.phase {
        Phase::Ready => if s.cursor < s.len {
            Action::Invoke(s.cursor as usize)
        } else {
            Action::Fallback
        },
        Phase::Awaiting | Phase::AwaitingFallback => Action::Wait,
        Phase::Unwinding => if s.entered.len() > 0 {
            Action::After(s.entered.last())
        } else {
            Action::Finish
        },
        Phase::Finished => Action::Done,
    }
}

/// The state once the action of `s` has been handed out: an entered
/// middleware goes on the stack, a run after-hook comes off it.
pub open spec fn after_action(s: ExecState) -> ExecState {
    match s.phase {
        Phase::Ready => if s.cursor < s.len {
            ExecState { entered: s.entered.push(s.cursor as usize), phase: Phase::Awaiting, ..s }
        } else {
            ExecState { phase: Phase::AwaitingFallback, ..s }
        },
        Phase::Unwinding => if s.entered.len() > 0 {
            ExecState { entered: s.entered.drop_last(), ..s }
        } else {
            ExecState { phase: Phase::Finished, ..s }
        },
        _ => s,
    }
}

/// The state once the pending invocation has settled as `k`: a middleware
/// that continues moves the cursor on; anything else, and whatever the
/// fallback does, ends forward traversal.
pub open spec fn after_settle(s: ExecState, k: Settled) -> ExecState {
    match s.phase {
        Phase::Awaiting => if k == Settled::Continue {
            ExecState { cursor: s.cursor + 1, phase: Phase::Ready, ..s }
        } else {
            ExecState { phase: Phase::Unwinding, ..s }
        },
        Phase::AwaitingFallback => ExecState { phase: Phase::Unwinding, ..s },
        _ => s,
    }
}

/// Report of a settlement that no pending invocation was waiting for.
#[derive(Clone, Copy, Debug, PartialEq, Eq, Structural)]
pub enum ExecError {
    NothingPending,
}

/// What the driver of an execution must do next, with what it needs to do it.
pub enum Step<S> {
    /// Invoke the middleware at this position on this request, response so
    /// far and context, then report its outcome.
    Invoke(usize, Request, Response, S),
    /// Invoke the terminal fallback on these, then report its outcome.
    Fallback(Request, Response, S),
    /// Run the after-hook of the middleware at this position.
    After(usize),
    /// An invocation is still pending: report its outcome first.
    Wait,
    /// Execution is over and ended with this outcome.
    Finish(Outcome<S>),
    /// The outcome has been handed out; nothing is left to do.
    Done,
}

/// The action a step stands for.
pub open spec fn action_of_step<S>(st: Step<S>) -> Action {
    match st {
        Step::Invoke(i, ..) => Action::Invoke(i),
        Step::Fallback(..) => Action::Fallback,
        Step::After(i) => Action::After(i),
        Step::Wait => Action::Wait,
        Step::Finish(_) => Action::Finish,
        Step::Done => Action::Done,
    }
}

/// What an execution holds in each phase: the request to hand on while
/// ready, nothing while an invocation is out or once the outcome is handed
/// out, the outcome to answer with while unwinding.
pub open spec fn carries<S>(phase: Phase, current: Option<Outcome<S>>) -> bool {
    match phase {
        Phase::Ready => current matches Some(Outcome::Continue(..)),
        Phase::Unwinding => current is Some,
        _ => current is None,
    }
}

/// The per-request state machine of a pipeline: a cursor over the middleware,
/// the one pending invocation, the stack of entered middleware whose
/// after-hooks are owed, and the request or outcome being carried.
///
/// After-hooks run whether the chain ended by a response or by an error: every
/// middleware that was entered gets its after-hook, the last entered first.
pub struct Execution<S> {
    len: usize,
    cursor: usize,
    entered: Vec<usize>,
    phase: Phase,
    current: Option<Outcome<S>>,
}

impl<S> View for Execution<S> {
    type V = ExecState;

    closed spec fn view(&self) -> ExecState {
        ExecState {
            len: self.len as nat,
            cursor: self.cursor as nat,
            entered: self.entered@,
            phase: self.phase,
        }
    }
}

impl<S> Execution<S> {
    /// The request or outcome being carried.
    pub closed spec fn current(&self) -> Option<Outcome<S>> {
        self.current
    }

    /// Well-formed: a reachable state carrying what its phase needs.
    pub open spec fn wf(&self) -> bool {
        reachable(self@) && carries(self@.phase, self.current())
    }

    /// An execution of `req` over a pipeline of `len` middleware.
    pub fn new(len: usize, req: Request, res: Response, state: S) -> (e: Execution<S>)
        ensures
            e@ == start(len as nat),
            e.current() == Some(Outcome::Continue(req, res, state)),
            e.wf(),
    {
        let e = Execution {
            len,
            cursor: 0,
            entered: Vec::new(),
            phase: Phase::Ready,
            current: Some(Outcome::Continue(req, res, state)),
        };
        assert(e.entered@ =~= upto(0));
        e
    }

    /// Hands out the next step and records it.
    pub fn next_action(&mut self) -> (st: Step<S>)
        requires
            old(self).wf(),
        ensures
            final(self).wf(),
            action_of_step(st) == action_of(old(self)@),
            final(self)@ == after_action(old(self)@),
            match st {
                Step::Invoke(_, req, res, state) => old(self).current() == Some(
                    Outcome::Continue(req, res, state),
                ),
                Step::Fallback(req, res, state) => old(self).current() == Some(
                    Outcome::Continue(req, res, state),
                ),
                Step::Finish(o) => old(self).current() == Some(o),
                _ => final(self).current() == old(self).current(),
            },
    {
        match self.phase {
            Phase::Ready => {
                let carried = self.current.take();
                match carried {
                    Some(Outcome::Continue(req, res, state)) => {
                        if self.cursor < self.len {
                            let pos = self.cursor;
                            self.entered.push(pos);
                            self.phase = Phase::Awaiting;
                            assert(self.entered@ =~= upto(self.cursor as nat + 1));
                            Step::Invoke(pos, req, res, state)
                        } else {
                            self.phase = Phase::AwaitingFallback;
                            Step::Fallback(req, res, state)
                        }
                    },
                    other => {
                        proof {
                            assert(false);
                        }
                        self.current = other;
                        Step::Wait
                    },
                }
            },
            Phase::Awaiting | Phase::AwaitingFallback => Step::Wait,
            Phase::Unwinding => {
                match self.entered.pop() {
                    Some(pos) => {
                        assert(self.entered@ =~= upto(self.entered@.len()));
                        Step::After(pos)
                    },
                    None => {
                        let last = self.current.take();
                        self.phase = Phase::Finished;
                        match last {
                            Some(o) => Step::Finish(o),
                            None => {
                                proof {
                                    assert(false);
                                }
                                Step::Done
                            },
                        }
                    },
                }
            },
            Phase::Finished => Step::Done,
        }
    }

    /// Reports the outcome the pending invocation settled to. With nothing
    /// pending the report is refused and the state is left as it was.
    pub fn settle(&mut self, outcome: Outcome<S>) -> (r: Result<(), ExecError>)
        requires
            old(self).wf(),
        ensures
            final(self).wf(),
            awaiting(old(self)@) ==> r is Ok && final(self)@ == after_settle(
                old(self)@,
                settled_of(outcome),
            ) && final(self).current() == Some(outcome),
            !awaiting(old(self)@) ==> r == Err::<(), ExecError>(ExecError::NothingPending)
                && final(self)@ == old(self)@ && final(self).current() == old(self).current(),
    {
        let k = outcome.settled();
        match self.phase {
            Phase::Awaiting => {
                if k == Settled::Continue {
                    self.cursor = self.cursor + 1;
                    self.phase = Phase::Ready;
                } else {
                    self.phase = Phase::Unwinding;
                }
                self.current = Some(outcome);
                Ok(())
            },
            Phase::AwaitingFallback => {
                self.phase = Phase::Unwinding;
                self.current = Some(outcome);
                Ok(())
            },
            _ => Err(ExecError::NothingPending),
        }
    }

    /// Whether the execution is over and its outcome handed out.
    pub fn is_finished(&self) -> (r: bool)
        ensures
            r == (self@.phase == Phase::Finished),
    {
        self.phase == Phase::Finished
    }
}

/// The actions a driver is given from state `s` when the invocations it
/// makes settle, in turn, as `events`; it stops at `Finish`, or where an
/// invocation is handed out with no event left to report.
pub open spec fn drive(s: ExecState, events: Seq<Settled>) -> Seq<Action>
    decreases events.len(), s.entered.len(),
{
    let a = action_of(s);
    match a {
        Action::Finish => seq![Action::Finish],
        Action::Wait | Action::Done => Seq::empty(),
        Action::After(_) => if s.entered.len() > 0 {
            seq![a] + drive(after_action(s), events)
        } else {
            Seq::empty()
        },
        _ => if events.len() == 0 {
            seq![a]
        } else {
            seq![a] + drive(after_settle(after_action(s), events[0]), events.drop_first())
        },
    }
}

/// `Invoke(from), Invoke(from + 1), ..., Invoke(to - 1)`.
pub open spec fn invokes(from: nat, to: nat) -> Seq<Action> {
    Seq::new((to - from) as nat, |i: int| Action::Invoke((from + i) as usize))
}

/// `After(n - 1), ..., After(1), After(0)`.
pub open spec fn afters(n: nat) -> Seq<Action> {
    Seq::new(n, |i: int| Action::After((n - 1 - i) as usize))
}

/// `n` reports of a middleware that continued.
pub open spec fn continues(n: nat) -> Seq<Settled> {
    Seq::new(n, |i: int| Settled::Continue)
}

proof fn lemma_unwind(s: ExecState, events: Seq<Settled>)
    requires
        s.phase == Phase::Unwinding,
        s.entered == upto(s.entered.len()),
    ensures
        drive(s, events) == afters(s.entered.len()) + seq![Action::Finish],
    decreases s.entered.len(),
{
    let m = s.entered.len();
    if m == 0 {
        assert(afters(0) + seq![Action::Finish] =~= seq![Action::Finish]);
    } else {
        let t = after_action(s);
        assert(t.entered =~= upto((m - 1) as nat));
        lemma_unwind(t, events);
        assert(s.entered.last() == (m - 1) as usize);
        assert(seq![Action::After((m - 1) as usize)] + (afters((m - 1) as nat) + seq![Action::Finish])
            =~= afters(m) + seq![Action::Finish]);
    }
}

proof fn lemma_forward_stop(s: ExecState, k: nat, t: Settled)
    requires
        s.phase == Phase::Ready,
        s.entered == upto(s.cursor),
        s.cursor <= k < s.len,
        t != Settled::Continue,
    ensures
        drive(s, continues((k - s.cursor) as nat).push(t))
            == invokes(s.cursor, k + 1) + afters(k + 1) + seq![Action::Finish],
    decreases k - s.cursor,
{
    let c = s.cursor;
    let events = continues((k - c) as nat).push(t);
    let w = after_action(s);
    assert(w.entered =~= upto(c + 1));
    if c == k {
        let u = after_settle(w, t);
        assert(events[0] == t);
        lemma_unwind(u, events.drop_first());
        assert(seq![Action::Invoke(c as usize)] + (afters(k + 1) + seq![Action::Finish])
            =~= invokes(c, k + 1) + afters(k + 1) + seq![Action::Finish]);
    } else {
        let u = after_settle(w, Settled::Continue);
        assert(events[0] == Settled::Continue);
        assert(events.drop_first() =~= continues((k - (c + 1)) as nat).push(t));
        lemma_forward_stop(u, k, t);
        assert(seq![Action::Invoke(c as usize)] + (invokes(c + 1, k + 1) + afters(k + 1) + seq![Action::Finish])
            =~= invokes(c, k + 1) + afters(k + 1) + seq![Action::Finish]);
    }
}

proof fn lemma_forward_through(s: ExecState, f: Settled)
    requires
        s.phase == Phase::Ready,
        s.entered == upto(s.cursor),
        s.cursor <= s.len,
    ensures
        drive(s, continues((s.len - s.cursor) as nat).push(f))
            == invokes(s.cursor, s.len) + seq![Action::Fallback] + afters(s.len) + seq![Action::Finish],
    decreases s.len - s.cursor,
{
    let c = s.cursor;
    let n = s.len;
    let events = continues((n - c) as nat).push(f);
    let w = after_action(s);
    if c == n {
        let u = after_settle(w, f);
        assert(events[0] == f);
        assert(u.entered =~= upto(n));
        lemma_unwind(u, events.drop_first());
        assert(seq![Action::Fallback] + (afters(n) + seq![Action::Finish])
            =~= invokes(c, n) + seq![Action::Fallback] + afters(n) + seq![Action::Finish]);
    } else {
        assert(w.entered =~= upto(c + 1));
        let u = after_settle(w, Settled::Continue);
        assert(events[0] == Settled::Continue);
        assert(events.drop_first() =~= continues((n - (c + 1)) as nat).push(f));
        lemma_forward_through(u, f);
        assert(seq![Action::Invoke(c as usize)] + (invokes(c + 1, n) + seq![Action::Fallback] + afters(n)
            + seq![Action::Finish]) =~= invokes(c, n) + seq![Action::Fallback] + afters(n)
            + seq![Action::Finish]);
    }
}

/// Onion order: in a pipeline of `n` middleware where the first `k - 1`
/// continue and the `k`-th ends the chain, the driver invokes the first `k`
/// in registration order, then runs their after-hooks in reverse, the `k`-th
/// first, and no after-hook of a middleware past the `k`-th ever runs.
pub proof fn lemma_after_hooks_reverse(n: nat, k: nat, t: Settled)
    requires
        1 <= k <= n,
        t != Settled::Continue,
    ensures
        drive(start(n), continues((k - 1) as nat).push(t))
            == invokes(0, k) + afters(k) + seq![Action::Finish],
        forall|i: int|
            0 <= i < drive(start(n), continues((k - 1) as nat).push(t)).len() ==> match #[trigger] drive(
                start(n),
                continues((k - 1) as nat).push(t),
            )[i] {
                Action::After(p) => (p as nat) < k,
                Action::Invoke(p) => (p as nat) < k,
                _ => true,
            },
{
    assert(upto(0) =~= Seq::<usize>::empty());
    lemma_forward_stop(start(n), (k - 1) as nat, t);
}

/// When no middleware ends the chain, the fallback is invoked exactly once,
/// after every middleware, and every after-hook still runs in reverse order.
pub proof fn lemma_fallback_once(n: nat, f: Settled)
    ensures
        drive(start(n), continues(n).push(f))
            == invokes(0, n) + seq![Action::Fallback] + afters(n) + seq![Action::Finish],
        forall|i: int|
            0 <= i < drive(start(n), continues(n).push(f)).len() ==> (#[trigger] drive(
                start(n),
                continues(n).push(f),
            )[i] == Action::Fallback <==> i == n),
{
    assert(upto(0) =~= Seq::<usize>::empty());
    lemma_forward_through(start(n), f);
}

} // verus!
