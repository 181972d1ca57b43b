//! Directory-scoped orchestration of an external version-control binary.
//!
//! The crate models the logic of a small git front end: validating a
//! request, planning the argument lists handed to the `git` binary,
//! relocating the process's working context for the duration of an
//! operation, and mapping subprocess outcomes to a success or failure
//! result. All actual input and output (filesystem checks, changing the
//! working directory, spawning the subprocess) is performed by the caller,
//! which drives a [`session::Session`] by executing the [`session::Action`]
//! it requests and feeding back the corresponding [`session::Event`].

pub mod command;
pub mod greet;
pub mod outcome;
pub mod paths;
pub mod request;
pub mod session;
pub mod trim;
