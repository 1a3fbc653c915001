//! Ingestion and transport core of a serial-attached WiFi modem driver.
//!
//! Bytes captured from the receive interrupt are buffered, handed to the
//! protocol parser, and the parsed responses are routed into a response
//! queue, a notification queue or the log. A TCP socket facade builds on the
//! result.

pub mod protocol;
pub mod queue;
pub mod buffer;
pub mod ingress;
pub mod network;
