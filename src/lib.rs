//! A request-handling pipeline: an ordered chain of middleware that inspect a
//! request, fill in a response, end the chain or hand it on, with after-hooks
//! that run in reverse order of entry.
//!
//! The library holds the decisions of the engine; whoever drives it (an async
//! runtime, a test) performs the middleware calls that those decisions name.

pub mod boundary;
pub mod error;
pub mod execution;
pub mod message;
pub mod mount;
pub mod offload;
pub mod outcome;
pub mod pipeline;
pub mod status;
pub mod timeout;

pub use boundary::{default_fallback, json_response, respond, server_error};
pub use error::HttpError;
pub use execution::{Action, ExecError, Execution, Step};
pub use message::{Request, Response, Uri};
pub use mount::{leave, mount, MountEntry, MountMiddleware};
pub use offload::{overloaded, Admission, WorkerPool};
pub use outcome::{Next, Outcome, Settled};
pub use pipeline::{App, AppBuilder};
pub use timeout::{race, resolve_race, RaceEvent, Racer};
