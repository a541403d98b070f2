//! Severity levels, logger kinds and request kinds, with their wire ordinals.

use vstd::prelude::*;

verus! {

/// Ordered log severity, least to most severe.
#[allow(non_camel_case_types)]
#[derive(Clone, Copy, Debug, PartialEq, Eq, Structural)]
pub enum LogLevel {
    DEBUG,
    INFO,
    WARNING,
    ERROR,
    FATAL,
}

/// Hint to the daemon about how events from an identity are persisted.
#[allow(non_camel_case_types)]
#[derive(Clone, Copy, Debug, PartialEq, Eq, Structural)]
pub enum LoggerType {
    CONSOLE,
    FILE,
}

/// Frame discriminant: the first field of every frame on the wire.
#[allow(non_camel_case_types)]
#[derive(Clone, Copy, Debug, PartialEq, Eq, Structural)]
pub enum RequestType {
    NEW_LOGGER,
    LOG_MESSAGE,
}

/// Wire ordinal of a severity level: `DEBUG` is 0, `FATAL` is 4.
pub open spec fn level_ord(level: LogLevel) -> int {
    match level {
        LogLevel::DEBUG => 0,
        LogLevel::INFO => 1,
        LogLevel::WARNING => 2,
        LogLevel::ERROR => 3,
        LogLevel::FATAL => 4,
    }
}

/// Wire ordinal of a logger kind: `CONSOLE` is 0, `FILE` is 1.
pub open spec fn logger_type_ord(t: LoggerType) -> int {
    match t {
        LoggerType::CONSOLE => 0,
        LoggerType::FILE => 1,
    }
}

/// Wire ordinal of a request kind: `NEW_LOGGER` is 0, `LOG_MESSAGE` is 1.
pub open spec fn request_type_ord(t: RequestType) -> int {
    match t {
        RequestType::NEW_LOGGER => 0,
        RequestType::LOG_MESSAGE => 1,
    }
}

impl LogLevel {
    /// The severity's ordinal as it is written on the wire.
    pub fn ordinal(&self) -> (r: i32)
        ensures
            r == level_ord(*self),
    {
        match self {
            LogLevel::DEBUG => 0,
            LogLevel::INFO => 1,
            LogLevel::WARNING => 2,
            LogLevel::ERROR => 3,
            LogLevel::FATAL => 4,
        }
    }
}

impl LoggerType {
    /// The logger kind's ordinal as it is written on the wire.
    pub fn ordinal(&self) -> (r: i32)
        ensures
            r == logger_type_ord(*self),
    {
        match self {
            LoggerType::CONSOLE => 0,
            LoggerType::FILE => 1,
        }
    }
}

impl RequestType {
    /// The request kind's ordinal as it is written on the wire.
    pub fn ordinal(&self) -> (r: i32)
        ensures
            r == request_type_ord(*self),
    {
        match self {
            RequestType::NEW_LOGGER => 0,
            RequestType::LOG_MESSAGE => 1,
        }
    }
}

} // verus!
