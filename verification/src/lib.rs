//! Client-side library for a local logging daemon.
//!
//! The library covers the pure, stateful core of the client: severity
//! levels and filtering, message-pattern formatting, binary frame
//! encoding for the two request kinds, and the buffered send session.
//! The transport itself (socket connect and write) lives outside the
//! library; the session reports which frames must be written and is
//! told what actually happened.

pub mod enums;
pub mod frames;
pub mod logger;
pub mod pattern;
