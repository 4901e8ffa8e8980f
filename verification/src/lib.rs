//! Recording of live telemetry channels into append-only, line-delimited log
//! files: the decisions and the data layout, without the I/O that carries
//! them out.
//!
//! A caller owns the connection to the vehicle and the files. It hands this
//! library what happened (a record arrived, a write failed, a stream ended)
//! and carries out what the library answers.

pub mod clock;
pub mod destination;
pub mod entry;
pub mod failure;
pub mod framing;
pub mod orchestrator;
pub mod recorder;
pub mod store;

pub use crate::entry::Entry;
pub use crate::store::{FileStore, Recorder};
