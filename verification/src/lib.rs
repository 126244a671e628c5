#![verifier::loop_isolation(false)]
//! A streaming XML codec for typed records.
//!
//! The decode side walks a forward-only stream of XML parse events and
//! builds strongly typed records, tolerating unknown elements; the encode
//! side emits a deterministically ordered XML document from a record.

pub mod decode;
pub mod encode;
pub mod events;
pub mod feeds;
pub mod fulfillment_outbound;
pub mod samples;
pub mod strutil;
pub mod timestamp;

pub use events::Event;
pub use events::Ev;
pub use events::EventKind;
