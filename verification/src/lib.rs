//! Runtime binding layer for a display-server style IPC protocol.
//!
//! Protocol objects live on a connection, each identified by an [`types::ObjectId`]
//! and implementing one versioned interface.  Incoming wire messages (object id,
//! opcode, argument payload, out-of-band handles) are routed to the matching
//! method of the object bound to that id.  This crate provides the generic
//! dispatch-and-binding mechanism:
//!
//! - [`codec`]: the wire format for message arguments — fixed-width integers,
//!   length-prefixed strings and arrays, object-id references, and handles
//!   carried on a side channel — together with verified cursors over a read
//!   buffer and proofs that encoding and decoding invert each other.
//! - [`dispatch`]: the [`dispatch::Dispatcher`] contract every per-interface
//!   decoder satisfies, and the [`dispatch::Handler`] binding unit that pairs
//!   one object with its dispatcher behind a uniform entry point.
//! - [`registry`]: one worked interface instantiation showing the shape that
//!   per-interface dispatchers and their companion encoders take.
//!
//! The same contract shapes serve both directions of a protocol: on the
//! receiving role inbound calls are dispatched and outbound notifications are
//! plain encoding functions; on the sending role the reverse.  Transport,
//! object registry storage, and connection lifecycle are collaborator concerns
//! outside this crate; their boundary is the [`types`] module.

pub mod codec;
pub mod dispatch;
pub mod registry;
pub mod types;
