//! Binary frame construction for the two request kinds.
//!
//! A frame is one complete, self-delimiting binary message. Every
//! integer field is four bytes, little-endian; identity and message
//! text travel as bytes with a trailing 0 terminator, and each length
//! field counts that terminator.

use vstd::prelude::*;

verus! {

/// The four little-endian bytes of a non-negative 32-bit value.
pub open spec fn le32(v: int) -> Seq<u8> {
    seq![
        (v % 256) as u8,
        ((v / 256) % 256) as u8,
        ((v / 65536) % 256) as u8,
        ((v / 16777216) % 256) as u8,
    ]
}

/// The exact bytes of a registration frame: request kind 0, then the
/// length of the terminated name, the terminated name itself, and the
/// logger kind. `name` already carries its 0 terminator.
pub open spec fn register_frame_bytes(name: Seq<u8>, logger_type: int) -> Seq<u8> {
    le32(0) + le32(name.len() as int) + name + le32(logger_type)
}

/// The exact bytes of a log frame: request kind 1, the terminated name
/// with its length, the terminated message text with its length, and
/// the severity ordinal. `name` and `msg` already carry their 0
/// terminators.
pub open spec fn log_frame_bytes(name: Seq<u8>, msg: Seq<u8>, level: int) -> Seq<u8> {
    le32(1) + le32(name.len() as int) + name + le32(msg.len() as int) + msg + le32(level)
}

/// Little-endian encoding of a non-negative 32-bit integer field.
fn le32_bytes(v: i32) -> (r: Vec<u8>)
    requires
        0 <= v,
    ensures
        r@ == le32(v as int),
{
    let b0: u8 = (v % 256) as u8;
    let b1: u8 = ((v / 256) % 256) as u8;
    let b2: u8 = ((v / 65536) % 256) as u8;
    let b3: u8 = ((v / 16777216) % 256) as u8;
    let mut r: Vec<u8> = Vec::new();
    r.push(b0);
    r.push(b1);
    r.push(b2);
    r.push(b3);
    proof {
        assert(r@ =~= le32(v as int));
    }
    r
}

/// A ready-to-encode registration request: an identity to announce to
/// the daemon together with the kind of logger it should keep for it.
pub struct RegisterLogger {
    request_type: i32,
    name_length: i32,
    name: Vec<u8>,
    logger_type: i32,
}

impl View for RegisterLogger {
    type V = Seq<u8>;

    /// A registration request is modelled by the frame it encodes to.
    closed spec fn view(&self) -> Seq<u8> {
        register_frame_bytes(self.name@, self.logger_type as int)
    }
}

impl RegisterLogger {
    /// The stored fields agree with each other and fit the wire format.
    pub closed spec fn wf(&self) -> bool {
        &&& self.request_type == 0
        &&& self.name_length as int == self.name@.len()
        &&& 1 <= self.name@.len() <= i32::MAX
        &&& self.name@.last() == 0u8
        &&& 0 <= self.logger_type <= 1
    }

    /// Build a registration request for the identity `name` (given
    /// without its terminator; one is appended here) and a logger kind
    /// ordinal.
    pub fn new(name: Vec<u8>, logger_type: i32) -> (r: RegisterLogger)
        requires
            name@.len() + 1 <= i32::MAX,
            0 <= logger_type <= 1,
        ensures
            r.wf(),
            r@ == register_frame_bytes(name@.push(0u8), logger_type as int),
    {
        let mut name = name;
        name.push(0u8);
        RegisterLogger {
            request_type: crate::enums::RequestType::NEW_LOGGER.ordinal(),
            name_length: name.len() as i32,
            name,
            logger_type,
        }
    }

    /// Serialize the request into its frame, byte for byte.
    pub fn encode(&self) -> (out: Vec<u8>)
        requires
            self.wf(),
        ensures
            out@ == self@,
    {
        let mut out = le32_bytes(self.request_type);
        let mut len_field = le32_bytes(self.name_length);
        out.append(&mut len_field);
        out.extend_from_slice(self.name.as_slice());
        let mut kind_field = le32_bytes(self.logger_type);
        out.append(&mut kind_field);
        proof {
            assert(out@ =~= self@);
        }
        out
    }
}

/// A ready-to-encode log event: an identity, a message text and a
/// severity ordinal.
pub struct LogMessage {
    request_type: i32,
    name_length: i32,
    name: Vec<u8>,
    msg_length: i32,
    msg: Vec<u8>,
    log_level: i32,
}

impl View for LogMessage {
    type V = Seq<u8>;

    /// A log event is modelled by the frame it encodes to.
    closed spec fn view(&self) -> Seq<u8> {
        log_frame_bytes(self.name@, self.msg@, self.log_level as int)
    }
}

impl LogMessage {
    /// The stored fields agree with each other and fit the wire format.
    pub closed spec fn wf(&self) -> bool {
        &&& self.request_type == 1
        &&& self.name_length as int == self.name@.len()
        &&& 1 <= self.name@.len() <= i32::MAX
        &&& self.name@.last() == 0u8
        &&& self.msg_length as int == self.msg@.len()
        &&& 1 <= self.msg@.len() <= i32::MAX
        &&& self.msg@.last() == 0u8
        &&& 0 <= self.log_level <= 4
    }

    /// Build a log event for the identity `name` and text `msg` (both
    /// given without their terminators; one is appended to each here)
    /// at the severity ordinal `log_level`.
    pub fn new(name: Vec<u8>, msg: Vec<u8>, log_level: i32) -> (r: LogMessage)
        requires
            name@.len() + 1 <= i32::MAX,
            msg@.len() + 1 <= i32::MAX,
            0 <= log_level <= 4,
        ensures
            r.wf(),
            r@ == log_frame_bytes(name@.push(0u8), msg@.push(0u8), log_level as int),
    {
        let mut name = name;
        name.push(0u8);
        let mut msg = msg;
        msg.push(0u8);
        LogMessage {
            request_type: crate::enums::RequestType::LOG_MESSAGE.ordinal(),
            name_length: name.len() as i32,
            name,
            msg_length: msg.len() as i32,
            msg,
            log_level,
        }
    }

    /// Serialize the event into its frame, byte for byte.
    pub fn encode(&self) -> (out: Vec<u8>)
        requires
            self.wf(),
        ensures
            out@ == self@,
    {
        let mut out = le32_bytes(self.request_type);
        let mut name_len_field = le32_bytes(self.name_length);
        out.append(&mut name_len_field);
        out.extend_from_slice(self.name.as_slice());
        let mut msg_len_field = le32_bytes(self.msg_length);
        out.append(&mut msg_len_field);
        out.extend_from_slice(self.msg.as_slice());
        let mut level_field = le32_bytes(self.log_level);
        out.append(&mut level_field);
        proof {
            assert(out@ =~= self@);
        }
        out
    }
}

} // verus!
