//! Control logic for a display device attached over RS-232.
//!
//! The crate holds the device protocol bridge: the codec that frames and
//! interprets the device's line-oriented ASCII protocol, and the decisions of
//! the transport controller that pairs commands with responses and drives the
//! bounded convergence retries of the state-changing operations.

pub mod protocol;
pub mod buffer;
pub mod epson_codec;
pub mod codec_laws;
pub mod transport;
pub mod transport_laws;
pub mod config;
pub mod routes;
pub mod mock_stream;
