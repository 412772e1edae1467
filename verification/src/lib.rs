//! Coordinator that loads an application image into flash chunk by chunk.
//!
//! A data source hands raw chunks to the loader. Each chunk is decompressed,
//! the decompressed bytes are written to flash at the session's write cursor,
//! and once the last chunk is on flash the whole image is verified and, if it
//! passed, authorized. Every collaborator works asynchronously: the loader
//! issues a request and learns of its completion through a callback.
//!
//! * [`interfaces`] holds the error taxonomy and the capability traits of the
//!   collaborators.
//! * [`session`] holds the bookkeeping of one load session.
//! * [`sequencer`] holds the state machine proper: for each event it decides
//!   the next state and the commands to issue.
//! * [`laws`] proves what holds of every run of the state machine.
//! * [`app_loader`] binds a sequencer to one instance of each collaborator and
//!   carries the commands out.

pub mod app_loader;
pub mod interfaces;
pub mod laws;
pub mod sequencer;
pub mod session;
