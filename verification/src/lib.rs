//! A sans-I/O engine for an append-only log file that rotates by size.
//!
//! The engine never touches the filesystem. It is a state machine: the driver
//! begins an operation, performs the [`protocol::Action`] it is handed, reports
//! what happened as a [`protocol::Event`], and repeats until the operation has
//! finished. Everything the engine decides is stated over a ghost model of the
//! filesystem in [`world`], and the guarantees of rotation are proved there.
use vstd::prelude::*;

pub mod appender;
pub mod codec;
pub mod compressor;
pub mod laws;
pub mod names;
pub mod protocol;
pub mod rotation;
pub mod state;
pub mod world;

pub use appender::FileAppender;
pub use compressor::Compressor;
pub use protocol::{Action, ErrorKind, Event, Poll};

verus! {

/// One byte.
pub const BITE: u64 = 1;

/// One kibibyte, in bytes.
pub const KB: u64 = BITE * 1024;

/// One mebibyte, in bytes.
pub const MB: u64 = KB * 1024;

/// One gibibyte, in bytes.
pub const GB: u64 = MB * 1024;

} // verus!
