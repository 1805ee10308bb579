//! A safety layer over a native, callback-driven asynchronous object-store API.
//!
//! The native layer represents an operation in flight by an opaque completion
//! handle and reports progress by invoking a callback on a thread of its own.
//! This crate holds the logic that turns that model into a future which is
//! polled cooperatively. It makes no native call itself: whoever drives it
//! hands it what the native layer said and does what it answers.
//!
//! - [`errors`]: the raw status convention and the errors it stands for;
//! - [`notifier`]: the single slot that holds the waiter to wake;
//! - [`cell`]: the result cell, whose shares tell whether the callback has run;
//! - [`asynchronous`]: the completion, which ties the two to a native handle;
//! - [`bridge`]: the completion as a state machine, and the laws of its runs;
//! - [`rados`]: the future of each kind of operation, and the values of the
//!   synchronous calls;
//! - [`stream`]: the position of a byte stream over one object;
//! - [`message`]: how errors read;
//! - [`into_ffi`]: strings on their way back from the native layer.

pub mod asynchronous;
pub mod bridge;
pub mod cell;
pub mod errors;
pub mod into_ffi;
pub mod message;
pub mod notifier;
pub mod rados;
pub mod stream;

pub use crate::asynchronous::{
    complete, effective_caution, Async, Caution, Completion, Phase, Return,
};
pub use crate::cell::ResultCell;
pub use crate::errors::{librados, librados_res, Error, OpKind, Operation};
pub use crate::message::decimal_string;
pub use crate::into_ffi::IntoRustString;
pub use crate::notifier::Notifier;
pub use crate::rados::{
    exists_from_status, exists_outcome, object_exists, pool_id_to_native, read_length, ClusterStat,
    DataFuture, ExistsFuture, ReadFuture, Stat, StatFuture, Submission, UnitFuture,
};
pub use crate::stream::{Position, SeekFrom};
