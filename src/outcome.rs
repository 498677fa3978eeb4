use vstd::prelude::*;
use crate::error::HttpError;
use crate::message::{Request, Response};

verus! {

/// What one middleware invocation settles to. Until it settles the
/// invocation is pending, and its execution waits for the report
/// (`Execution::settle`).
pub enum Outcome<S> {
    /// Hand the request, the response so far and the context to the rest of the chain.
    Continue(Request, Response, S),
    /// End the chain with this response.
    Terminate(Response),
    /// End the chain with an error.
    Failed(HttpError),
}

/// The kind of an outcome, which is all the engine's decisions read.
#[derive(Clone, Copy, Debug, PartialEq, Eq, Structural)]
pub enum Settled {
    Continue,
    Terminate,
    Failed,
}

/// The kind of an outcome.
pub open spec fn settled_of<S>(o: Outcome<S>) -> Settled {
    match o {
        Outcome::Continue(..) => Settled::Continue,
        Outcome::Terminate(_) => Settled::Terminate,
        Outcome::Failed(_) => Settled::Failed,
    }
}

impl<S> Outcome<S> {
    /// The kind of this outcome.
    pub fn settled(&self) -> (k: Settled)
        ensures
            k == settled_of(*self),
    {
        match self {
            Outcome::Continue(..) => Settled::Continue,
            Outcome::Terminate(_) => Settled::Terminate,
            Outcome::Failed(_) => Settled::Failed,
        }
    }
}

/// The continuation a middleware receives: the rest of the chain. It can be
/// used once, since calling it gives it up; the engine then runs the next unit.
pub struct Next {
    _sealed: (),
}

impl Next {
    /// A continuation for one invocation.
    pub fn new() -> (n: Next) {
        Next { _sealed: () }
    }

    /// Hands the request, the response so far and the context on to the rest
    /// of the chain.
    pub fn call<S>(self, req: Request, res: Response, state: S) -> (o: Outcome<S>)
        ensures
            o == Outcome::Continue(req, res, state),
    {
        Outcome::Continue(req, res, state)
    }
}

} // verus!
