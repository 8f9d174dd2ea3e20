//! Client side of the SMA-Net2 protocol spoken by SMA photovoltaic inverters:
//! the wire framing, device discovery, the login exchange, the correlation of
//! replies with requests, the decoding of measurement records, and the rules
//! by which an exporter schedules its polls and keeps its gauges.
//!
//! The library performs no I/O. It builds the bytes to send, judges the bytes
//! that arrive, and says what to do next; a caller owns the socket and clock.

pub mod bytes;
pub mod discovery;
pub mod frame;
pub mod gauges;
pub mod measurement;
pub mod readings;
pub mod schedule;
pub mod session;
pub mod settings;
