//! A TCP load generator's decision core.
//!
//! The crate holds everything a load run decides: how a [`Config`] is split
//! into threads and connection loops ([`Plan`]), how long each loop waits
//! between requests, when a loop stops ([`should_stop`]), and the state
//! machine each connection [`Worker`] walks through. Sockets, timers and
//! threads are left to the caller, which performs the [`Action`]s a worker
//! asks for and reports back how they went.
//!
//! Beside the run itself it keeps the counts of a run ([`Stats`]), the books
//! of a pool of workers ([`WorkerPool`]) and the cutting of a log down to what
//! is charted ([`tuning`]).

pub mod config;
pub mod host;
pub mod mutator;
pub mod plan;
pub mod pool;
pub mod run;
pub mod shutdown;
pub mod span;
pub mod stats;
pub mod termination;
pub mod tuning;
pub mod worker;

pub use config::{Config, ConfigBuilder, ConfigView, Endpoint, Host, Settings};
pub use mutator::{FirstByteStepper, FixedPayload, Message, PayloadMutator};
pub use plan::Plan;
pub use pool::{Balance, PoolView, WorkerPool, WorkerPoolCommand, WorkerPoolEvent};
pub use shutdown::{shutdown_requested, stop_asked, CloseSignal};
pub use span::Span;
pub use stats::{Metrics, Stats};
pub use termination::should_stop;
pub use worker::{Action, Input, Outcome, Phase, Worker, WorkerState};
