//! Temporary directories and files, without the calls into the system.
//!
//! A temporary directory or file has a name that holds the time of its
//! making, is created where nothing exists yet, and is removed when its
//! handle is given up. This crate decides what has to happen for that, and
//! in which order; the caller performs each step on the clock and the
//! filesystem and reports back what the system answered.
//!
//! ```text
//! let mut opening = TempDir::open_with("/work", "abc-");
//! let dir = loop {
//!     let event = perform(opening.pending());
//!     match opening.advance(event) {
//!         OpenStep::Pending(next) => opening = next,
//!         OpenStep::Dir(dir) => break dir,
//!         OpenStep::File(_) => unreachable!(),
//!         OpenStep::Failed(message) => return Err(message),
//!     }
//! };
//! ```
//!
//! Here `perform` is the caller's: it reads the clock, probes, pauses,
//! creates or removes as the [`protocol::Action`] says, and returns the
//! [`protocol::Event`] that tells what happened. Giving the handle up goes
//! the same way, from [`TempDir::close`].
//!
//! - [`name`]: the numeral of a timestamp and the candidate name built on it.
//! - [`path`]: the candidate name joined to a base directory.
//! - [`protocol`]: the steps asked of the caller, and the answers to them.
//! - [`opening`]: from a request to a handle or a failure.
//! - [`closing`]: from a handle to nothing left behind.
//! - [`handle`]: [`TempDir`] and [`TempFile`].
//! - [`system`]: what opening and closing come to on a system that keeps
//!   its side of the protocol.

pub mod closing;
pub mod handle;
pub mod name;
pub mod opening;
pub mod path;
pub mod protocol;
pub mod system;

pub use handle::{TempDir, TempFile};
