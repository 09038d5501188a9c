//! A bench emulator for a gauge-display controller.
//!
//! The peer is a display that speaks newline-delimited JSON over a serial
//! link. This crate holds everything that decides: how a raw byte stream is
//! cut into messages, how a message becomes a request, which response answers
//! it, and how a session moves between waiting for a port, the opening
//! handshake, serving and a fault. The caller owns the port and does what the
//! session tells it to do.

pub mod codec;
pub mod dispatch;
pub mod dto;
pub mod error;
pub mod fixed;
pub mod framing;
pub mod session;
