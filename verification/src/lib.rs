//! Starter-project scaffolding as a verified decision procedure.
//!
//! A run is a conversation between a [`session::Session`] and its driver.
//! The session names the next thing to do in the outside world (ask the
//! user, spawn a generator, create a directory, write a file); the driver
//! does it and hands back whether it worked. Everything that is decided
//! along the way is decided here, and stated against the model in
//! [`protocol`].
//!
//! - [`router`] reads the command line into a [`request::Invocation`].
//! - [`kind`] holds the project kinds and the executables they rely on.
//! - [`scaffold`] builds the hand-written layout of a kind.
//! - [`protocol`] is the model: states, actions, and the step between them.
//! - [`session`] is the run itself, proved against the model.
//! - [`outcome`] holds the results and the exit status.
//! - [`report`] words the status lines and the failures.
//! - [`laws`] states what holds of every run.

pub mod kind;
pub mod laws;
pub mod outcome;
mod probe;
pub mod protocol;
pub mod report;
pub mod request;
pub mod router;
pub mod scaffold;
pub mod session;
