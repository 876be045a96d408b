//! Fetching one variant image from a signed repository.
//!
//! The library holds the decisions of a fetch: which target a variant names,
//! whether that name may be used, where the image is written, how the
//! compressed stream is handed to the LZ4 frame decoder, and which failure
//! belongs to which stage. Everything that touches the network or the
//! filesystem is left to the caller, who performs the [`pipeline::Action`]s
//! that the [`pipeline::Fetch`] machine gives and reports back what happened.
//!
//! The modules, from the leaves up:
//!
//! - [`error`]: the closed set of failures, each with its context;
//! - [`target`]: target names, their tests, and destination paths;
//! - [`bridge`]: the queue that turns arriving chunks into bytes to pull;
//! - [`codec`]: the LZ4 frame decoder, as far as the library relies on it;
//! - [`pipeline`]: the state machine that orders the stages of a fetch;
//! - [`config`]: the entry, from the command's arguments;
//! - [`laws`]: what holds of every run of the machine.
//!
//! The compressed target is gathered in memory as its chunks arrive and is
//! decoded once the stream has ended; the image is then handed out for
//! writing block by block, so that it is never held as a whole.

pub mod bridge;
pub mod codec;
pub mod config;
pub mod error;
pub mod laws;
pub mod pipeline;
pub mod target;
