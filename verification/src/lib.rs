//! Crash-safe persistence of named text documents in a `data` directory that
//! sits beside the running executable.
//!
//! The library never touches the file system itself. Each command is a small
//! state machine ([`protocol::Session`]): it names the next call, the caller
//! makes it and reports what happened, and the machine decides what follows.
//! The order of the calls, which failures are fatal and what the caller is
//! told are decided here and verified.
//!
//! - [`paths`]: where the data directory, a document and its temporary file
//!   are.
//! - [`names`]: which names a document may have.
//! - [`protocol`]: commands, requests, answers, results.
//! - [`model`]: the state machine as mathematics.
//! - [`session`]: the state machine in executable form, proved equal to the
//!   model.
//! - [`host`], [`run`]: a model of the machine that answers the calls, and of
//!   a command run on it.
//! - [`laws`]: what the commands guarantee on such a machine.

pub mod paths;
pub mod names;
pub mod protocol;
pub mod model;
pub mod session;
pub mod host;
pub mod run;
mod invariants;
pub mod laws;
