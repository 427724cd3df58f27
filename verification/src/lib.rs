//! Codec for the session-resumption frame of a multiplexed peer protocol.
//!
//! The frame body carries a protocol version, an optional resume token and
//! two stream positions. [`frame::resume::Resume`] holds one body,
//! [`frame::resume::ResumeBuilder`] assembles an outgoing one, and
//! [`frame::layout`] fixes the bytes that stand for it.

pub mod big_endian;
pub mod buf;
pub mod frame;
pub mod put;
pub mod result;
