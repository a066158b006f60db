//! Event normalization and dispatch for a motion / button / wheel input bridge.
//!
//! Raw input from two transports is decoded into a small set of typed domain
//! events, and each event is turned into a named notification for the host.
//!
//! - [`tables`]: the fixed code-to-label tables.
//! - [`event`]: the domain events.
//! - [`text`]: byte buffers read as text.
//! - [`decode`]: the payload decoders.
//! - [`json`]: the shape of a payload.
//! - [`dispatch`]: from an event to a notification in the sink.
//! - [`http`], [`ble`]: the handlers of the two transports.

pub mod ble;
pub mod decode;
pub mod dispatch;
pub mod event;
pub mod http;
pub mod json;
pub mod tables;
pub mod text;
