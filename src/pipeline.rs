use vstd::prelude::*;
use std::sync::Arc;
use crate::execution::{Execution, start};
use crate::message::{Request, Response};
use crate::outcome::Outcome;

verus! {

/// Collects middleware in registration order until the pipeline is built.
pub struct AppBuilder<M> {
    middlewares: Vec<M>,
}

/// A built pipeline: its middleware, in registration order, shared read-only
/// by every request and every clone.
pub struct App<M> {
    middlewares: Arc<Vec<M>>,
}

impl<M> View for AppBuilder<M> {
    type V = Seq<M>;

    closed spec fn view(&self) -> Seq<M> {
        self.middlewares@
    }
}

impl<M> View for App<M> {
    type V = Seq<M>;

    closed spec fn view(&self) -> Seq<M> {
        (*self.middlewares)@
    }
}

impl<M> AppBuilder<M> {
    /// A builder with no middleware.
    pub fn new() -> (b: AppBuilder<M>)
        ensures
            b@ == Seq::<M>::empty(),
    {
        AppBuilder { middlewares: Vec::new() }
    }

    /// Registers a middleware after those already registered.
    pub fn add(&mut self, middleware: M)
        ensures
            final(self)@ == old(self)@.push(middleware),
    {
        self.middlewares.push(middleware);
    }

    /// Seals the pipeline: no middleware can be added to what it returns.
    pub fn build(self) -> (app: App<M>)
        ensures
            app@ == self@,
    {
        App { middlewares: Arc::new(self.middlewares) }
    }
}

impl<M> App<M> {
    /// A builder for a new pipeline.
    pub fn new() -> (b: AppBuilder<M>)
        ensures
            b@ == Seq::<M>::empty(),
    {
        AppBuilder::new()
    }

    /// The number of middleware.
    pub fn len(&self) -> (n: usize)
        ensures
            n == self@.len(),
    {
        self.middlewares.len()
    }

    /// The middleware at position `i`.
    pub fn middleware(&self, i: usize) -> (m: &M)
        requires
            i < self@.len(),
        ensures
            *m == self@[i as int],
    {
        &self.middlewares[i]
    }

    /// Starts the execution of one request through this pipeline, with a
    /// fresh response and the request's own context.
    pub fn execute<S>(&self, req: Request, res: Response, state: S) -> (e: Execution<S>)
        ensures
            e@ == start(self@.len()),
            e.current() == Some(Outcome::Continue(req, res, state)),
            e.wf(),
    {
        Execution::new(self.middlewares.len(), req, res, state)
    }

    /// Another handle on the same middleware.
    pub fn share(&self) -> (app: App<M>)
        ensures
            app@ == self@,
    {
        App { middlewares: Arc::clone(&self.middlewares) }
    }
}

impl<M> Clone for App<M> {
    fn clone(&self) -> (app: App<M>)
        ensures
            app@ == self@,
    {
        self.share()
    }
}

} // verus!
