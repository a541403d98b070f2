//! The buffered client session.
//!
//! A `Loglib` owns a default identity, a minimum severity threshold and
//! a FIFO buffer of already-encoded frames that still await delivery.
//! The transport connection itself lives outside the library: the
//! session keeps a mirror of its status, is told when a connect attempt
//! or a write succeeded or failed, and answers every send request with
//! the action the caller must now take. A send call never fails: a
//! frame that cannot go out is buffered, in arrival order, and handed
//! back for writing as soon as a connection is reported again.

use vstd::prelude::*;

use crate::enums::{LogLevel, LoggerType, level_ord, logger_type_ord};
use crate::frames::{LogMessage, RegisterLogger, log_frame_bytes, register_frame_bytes};
use crate::pattern::{INVALID_PREFIX_CHARS, arg_views, formatted, formatter, lemma_formatted_len, total_len};
use vstd::utf8::{encode_scalar, encode_utf8};

verus! {

/// The longest identity, message or pattern-plus-arguments text, in
/// characters, that a frame length field is guaranteed to carry.
pub const MAX_TEXT_CHARS: usize = 134217728;

/// The abstract state of a client session: the mirrored transport
/// status, the default identity, the severity threshold and the
/// pending frames in arrival order.
#[verifier::ext_equal]
pub struct ClientModel {
    pub connected: bool,
    pub default_name: Seq<char>,
    pub min_level: int,
    pub pending: Seq<Seq<u8>>,
}

/// `m` with its severity threshold replaced.
pub open spec fn with_min_level(m: ClientModel, level: int) -> ClientModel {
    ClientModel { min_level: level, ..m }
}

/// `m` with its mirrored transport status replaced.
pub open spec fn with_connected(m: ClientModel, connected: bool) -> ClientModel {
    ClientModel { connected, ..m }
}

/// The identity a call addresses: the override when one is given, the
/// client's default otherwise.
pub open spec fn effective_name(name: Option<&str>, default_name: Seq<char>) -> Seq<char> {
    match name {
        Some(n) => n@,
        None => default_name,
    }
}

/// The registration frame for an identity text and a logger kind
/// ordinal: the text goes on the wire UTF-8 encoded with a trailing 0.
pub open spec fn register_frame(name: Seq<char>, kind: int) -> Seq<u8> {
    register_frame_bytes(encode_utf8(name).push(0u8), kind)
}

/// The log frame for an identity text, a message text and a severity
/// ordinal: both texts go on the wire UTF-8 encoded with a trailing 0.
pub open spec fn log_frame(name: Seq<char>, msg: Seq<char>, level: int) -> Seq<u8> {
    log_frame_bytes(encode_utf8(name).push(0u8), encode_utf8(msg).push(0u8), level)
}

/// What the caller must do after a send request.
#[derive(Clone, Copy, Debug, PartialEq, Eq, Structural)]
pub enum SendAction {
    /// The severity fell below the threshold: the call was a no-op.
    Filtered,
    /// No connection is held: the frame joined the pending buffer and
    /// nothing is to be written now.
    Buffered,
    /// A connection is held: every pending frame, ending with the one
    /// just added, must now be written in order.
    Flush,
}

/// One frame was appended to the pending buffer and nothing else
/// changed; the action tells the caller to flush exactly when a
/// connection is held.
pub open spec fn queued(
    pre: ClientModel,
    post: ClientModel,
    act: SendAction,
    frame: Seq<u8>,
) -> bool {
    &&& post.connected == pre.connected
    &&& post.default_name == pre.default_name
    &&& post.min_level == pre.min_level
    &&& post.pending == pre.pending.push(frame)
    &&& act == (if pre.connected {
        SendAction::Flush
    } else {
        SendAction::Buffered
    })
}

/// A log request either falls below the severity threshold — then the
/// client is untouched and the call reports a no-op — or its frame is
/// queued. The two cases are exclusive: a send is a no-op exactly when
/// the severity is below the threshold.
pub open spec fn logged(
    pre: ClientModel,
    post: ClientModel,
    act: SendAction,
    name: Seq<char>,
    msg: Seq<char>,
    level: int,
) -> bool {
    if level < pre.min_level {
        post == pre && act == SendAction::Filtered
    } else {
        queued(pre, post, act, log_frame(name, msg, level))
    }
}

/// UTF-8 spends at most four bytes on each character.
pub proof fn lemma_encode_utf8_len(s: Seq<char>)
    ensures
        encode_utf8(s).len() <= 4 * s.len(),
    decreases s.len(),
{
    if s.len() > 0 {
        assert(encode_scalar(s[0] as u32).len() <= 4);
        lemma_encode_utf8_len(s.drop_first());
    }
}

/// Law: setting the severity threshold twice to one value leaves the
/// client exactly as after setting it once, so the filtering behaviour
/// is unchanged.
pub proof fn lemma_set_min_level_idempotent(m: ClientModel, level: int)
    ensures
        with_min_level(with_min_level(m, level), level) == with_min_level(m, level),
{
    assert(with_min_level(with_min_level(m, level), level) =~= with_min_level(m, level));
}

/// The client session: default identity, severity threshold, mirrored
/// transport status and the pending frames.
pub struct Loglib {
    connected: bool,
    default_name: String,
    min_log_level: LogLevel,
    message_buffer: Vec<Vec<u8>>,
}

impl View for Loglib {
    type V = ClientModel;

    closed spec fn view(&self) -> ClientModel {
        ClientModel {
            connected: self.connected,
            default_name: self.default_name@,
            min_level: level_ord(self.min_log_level),
            pending: self.message_buffer.deep_view(),
        }
    }
}

impl Loglib {
    /// The stored default identity stays short enough for any frame
    /// built from it.
    pub closed spec fn wf(&self) -> bool {
        self.default_name@.len() <= MAX_TEXT_CHARS
    }

    /// A fresh client: the given default identity, an INFO threshold,
    /// an empty pending buffer and no connection yet. The owner
    /// attempts the first connection and reports it through
    /// `connection_result`.
    pub fn new(name: String) -> (r: Loglib)
        requires
            name@.len() <= MAX_TEXT_CHARS,
        ensures
            r.wf(),
            r@ == (ClientModel {
                connected: false,
                default_name: name@,
                min_level: level_ord(LogLevel::INFO),
                pending: Seq::empty(),
            }),
    {
        let r = Loglib {
            connected: false,
            default_name: name,
            min_log_level: LogLevel::INFO,
            message_buffer: Vec::new(),
        };
        proof {
            assert(r@ =~= (ClientModel {
                connected: false,
                default_name: r.default_name@,
                min_level: level_ord(LogLevel::INFO),
                pending: Seq::empty(),
            }));
        }
        r
    }

    /// Replace the severity threshold; only later calls are affected.
    pub fn set_min_log_level(&mut self, log_level: LogLevel)
        requires
            old(self).wf(),
        ensures
            final(self).wf(),
            final(self)@ == with_min_level(old(self)@, level_ord(log_level)),
    {
        self.min_log_level = log_level;
        proof {
            assert(self@ =~= with_min_level(old(self)@, level_ord(log_level)));
        }
    }

    /// True when no connection is held, so the owner should attempt
    /// one before the next flush.
    pub fn needs_connection(&self) -> (b: bool)
        ensures
            b == !self@.connected,
    {
        !self.connected
    }

    /// Record the outcome of a connect attempt, or a later loss of the
    /// connection: afterwards the session holds a connection exactly
    /// when `ok` is true.
    pub fn connection_result(&mut self, ok: bool)
        requires
            old(self).wf(),
        ensures
            final(self).wf(),
            final(self)@ == with_connected(old(self)@, ok),
    {
        self.connected = ok;
        proof {
            assert(self@ =~= with_connected(old(self)@, ok));
        }
    }

    /// Queue a registration frame for the given or default identity
    /// and the given logger kind, and say whether to flush now.
    pub fn register_logger(&mut self, logger_type: LoggerType, name: Option<&str>) -> (act:
        SendAction)
        requires
            old(self).wf(),
            name matches Some(n) ==> n@.len() <= MAX_TEXT_CHARS,
        ensures
            final(self).wf(),
            queued(
                old(self)@,
                final(self)@,
                act,
                register_frame(
                    effective_name(name, old(self)@.default_name),
                    logger_type_ord(logger_type),
                ),
            ),
    {
        let name_ref: &str = match name {
            Some(n) => n,
            None => self.default_name.as_str(),
        };
        proof {
            assert(name_ref@ == effective_name(name, old(self)@.default_name));
            lemma_encode_utf8_len(name_ref@);
        }
        let request = RegisterLogger::new(name_ref.as_bytes_vec(), logger_type.ordinal());
        let frame = request.encode();
        self.message_buffer.push(frame);
        proof {
            assert(self.message_buffer.deep_view() =~~= old(self)@.pending.push(
                register_frame(
                    effective_name(name, old(self)@.default_name),
                    logger_type_ord(logger_type),
                ),
            ));
        }
        if self.connected {
            SendAction::Flush
        } else {
            SendAction::Buffered
        }
    }

    /// Send `msg` at severity `level` under the given or default
    /// identity. Below the threshold the call is a no-op — nothing is
    /// buffered or written; otherwise the log frame is queued and the
    /// action says whether to flush now.
    pub fn send_log(&mut self, msg: &str, level: LogLevel, name: Option<&str>) -> (act:
        SendAction)
        requires
            old(self).wf(),
            msg@.len() <= MAX_TEXT_CHARS,
            name matches Some(n) ==> n@.len() <= MAX_TEXT_CHARS,
        ensures
            final(self).wf(),
            logged(
                old(self)@,
                final(self)@,
                act,
                effective_name(name, old(self)@.default_name),
                msg@,
                level_ord(level),
            ),
    {
        if level.ordinal() < self.min_log_level.ordinal() {
            return SendAction::Filtered;
        }
        let name_ref: &str = match name {
            Some(n) => n,
            None => self.default_name.as_str(),
        };
        proof {
            assert(name_ref@ == effective_name(name, old(self)@.default_name));
            lemma_encode_utf8_len(name_ref@);
            lemma_encode_utf8_len(msg@);
        }
        let event = LogMessage::new(name_ref.as_bytes_vec(), msg.as_bytes_vec(), level.ordinal());
        let frame = event.encode();
        self.message_buffer.push(frame);
        proof {
            assert(self.message_buffer.deep_view() =~~= old(self)@.pending.push(
                log_frame(
                    effective_name(name, old(self)@.default_name),
                    msg@,
                    level_ord(level),
                ),
            ));
        }
        if self.connected {
            SendAction::Flush
        } else {
            SendAction::Buffered
        }
    }

    /// Format `pattern` with `args`, then behave as `send_log` on the
    /// result: filtered below the threshold, queued otherwise.
    pub fn format_and_log(
        &mut self,
        pattern: &str,
        args: &[&str],
        log_level: LogLevel,
        name: Option<&str>,
    ) -> (act: SendAction)
        requires
            old(self).wf(),
            pattern@.len() + total_len(arg_views(args@)) + INVALID_PREFIX_CHARS <= MAX_TEXT_CHARS,
            name matches Some(n) ==> n@.len() <= MAX_TEXT_CHARS,
        ensures
            final(self).wf(),
            logged(
                old(self)@,
                final(self)@,
                act,
                effective_name(name, old(self)@.default_name),
                formatted(pattern@, arg_views(args@)),
                level_ord(log_level),
            ),
    {
        if log_level.ordinal() < self.min_log_level.ordinal() {
            return SendAction::Filtered;
        }
        let text = formatter(pattern, args);
        proof {
            lemma_formatted_len(pattern@, arg_views(args@));
        }
        self.send_log(text.as_str(), log_level, name)
    }

    /// Drop the first `written` pending frames — the owner has put
    /// them on the wire — and record a lost connection when not all of
    /// them went out: the failed frame and everything after it stay
    /// buffered, in order.
    pub fn mark_written(&mut self, written: usize)
        requires
            old(self).wf(),
            written <= old(self)@.pending.len(),
        ensures
            final(self).wf(),
            final(self)@.pending == old(self)@.pending.skip(written as int),
            final(self)@.connected == (old(self)@.connected && written == old(
                self,
            )@.pending.len()),
            final(self)@.default_name == old(self)@.default_name,
            final(self)@.min_level == old(self)@.min_level,
    {
        if written < self.message_buffer.len() {
            self.connected = false;
        }
        let tail = self.message_buffer.split_off(written);
        self.message_buffer = tail;
        proof {
            assert(self.message_buffer.deep_view() =~= old(self)@.pending.skip(written as int));
        }
    }

    /// How many frames await delivery.
    pub fn pending_count(&self) -> (n: usize)
        ensures
            n == self@.pending.len(),
    {
        self.message_buffer.len()
    }

    /// The `i`-th pending frame, in arrival order: what a flush must
    /// write `i`-th.
    pub fn pending_frame(&self, i: usize) -> (frame: &Vec<u8>)
        requires
            i < self@.pending.len(),
        ensures
            frame@ == self@.pending[i as int],
    {
        &self.message_buffer[i]
    }

    /// The current severity threshold.
    pub fn min_log_level(&self) -> (level: LogLevel)
        ensures
            level_ord(level) == self@.min_level,
    {
        self.min_log_level
    }

    /// The default identity.
    pub fn default_name(&self) -> (name: &String)
        ensures
            name@ == self@.default_name,
    {
        &self.default_name
    }
}

/// The severity-named send operations: each formats and sends at a
/// fixed severity, under the default identity or a named one.
impl Loglib {
    /// Format `pattern` with `args` and send the result at DEBUG
    /// severity under the default identity.
    pub fn debug_f(&mut self, pattern: &str, args: &[&str]) -> (act: SendAction)
        requires
            old(self).wf(),
            pattern@.len() + total_len(arg_views(args@)) + INVALID_PREFIX_CHARS <= MAX_TEXT_CHARS,
        ensures
            final(self).wf(),
            logged(
                old(self)@,
                final(self)@,
                act,
                old(self)@.default_name,
                formatted(pattern@, arg_views(args@)),
                level_ord(LogLevel::DEBUG),
            ),
    {
        self.format_and_log(pattern, args, LogLevel::DEBUG, None)
    }

    /// Format `pattern` with `args` and send the result at INFO
    /// severity under the default identity.
    pub fn info_f(&mut self, pattern: &str, args: &[&str]) -> (act: SendAction)
        requires
            old(self).wf(),
            pattern@.len() + total_len(arg_views(args@)) + INVALID_PREFIX_CHARS <= MAX_TEXT_CHARS,
        ensures
            final(self).wf(),
            logged(
                old(self)@,
                final(self)@,
                act,
                old(self)@.default_name,
                formatted(pattern@, arg_views(args@)),
                level_ord(LogLevel::INFO),
            ),
    {
        self.format_and_log(pattern, args, LogLevel::INFO, None)
    }

    /// Format `pattern` with `args` and send the result at WARNING
    /// severity under the default identity.
    pub fn warning_f(&mut self, pattern: &str, args: &[&str]) -> (act: SendAction)
        requires
            old(self).wf(),
            pattern@.len() + total_len(arg_views(args@)) + INVALID_PREFIX_CHARS <= MAX_TEXT_CHARS,
        ensures
            final(self).wf(),
            logged(
                old(self)@,
                final(self)@,
                act,
                old(self)@.default_name,
                formatted(pattern@, arg_views(args@)),
                level_ord(LogLevel::WARNING),
            ),
    {
        self.format_and_log(pattern, args, LogLevel::WARNING, None)
    }

    /// Format `pattern` with `args` and send the result at ERROR
    /// severity under the default identity.
    pub fn error_f(&mut self, pattern: &str, args: &[&str]) -> (act: SendAction)
        requires
            old(self).wf(),
            pattern@.len() + total_len(arg_views(args@)) + INVALID_PREFIX_CHARS <= MAX_TEXT_CHARS,
        ensures
            final(self).wf(),
            logged(
                old(self)@,
                final(self)@,
                act,
                old(self)@.default_name,
                formatted(pattern@, arg_views(args@)),
                level_ord(LogLevel::ERROR),
            ),
    {
        self.format_and_log(pattern, args, LogLevel::ERROR, None)
    }

    /// Format `pattern` with `args` and send the result at FATAL
    /// severity under the default identity.
    pub fn fatal_f(&mut self, pattern: &str, args: &[&str]) -> (act: SendAction)
        requires
            old(self).wf(),
            pattern@.len() + total_len(arg_views(args@)) + INVALID_PREFIX_CHARS <= MAX_TEXT_CHARS,
        ensures
            final(self).wf(),
            logged(
                old(self)@,
                final(self)@,
                act,
                old(self)@.default_name,
                formatted(pattern@, arg_views(args@)),
                level_ord(LogLevel::FATAL),
            ),
    {
        self.format_and_log(pattern, args, LogLevel::FATAL, None)
    }

    /// Send `msg` at DEBUG severity under the default identity.
    /// The text passes the formatter with no arguments, so a `msg`
    /// holding placeholder tokens is reported as an invalid pattern.
    pub fn debug(&mut self, msg: &str) -> (act: SendAction)
        requires
            old(self).wf(),
            msg@.len() + INVALID_PREFIX_CHARS <= MAX_TEXT_CHARS,
        ensures
            final(self).wf(),
            logged(
                old(self)@,
                final(self)@,
                act,
                old(self)@.default_name,
                formatted(msg@, Seq::empty()),
                level_ord(LogLevel::DEBUG),
            ),
    {
        let no_args: [&str; 0] = [];
        proof {
            assert(arg_views(no_args@) =~= Seq::<Seq<char>>::empty());
        }
        self.format_and_log(msg, vstd::array::array_as_slice(&no_args), LogLevel::DEBUG, None)
    }

    /// Send `msg` at INFO severity under the default identity.
    /// The text passes the formatter with no arguments, so a `msg`
    /// holding placeholder tokens is reported as an invalid pattern.
    pub fn info(&mut self, msg: &str) -> (act: SendAction)
        requires
            old(self).wf(),
            msg@.len() + INVALID_PREFIX_CHARS <= MAX_TEXT_CHARS,
        ensures
            final(self).wf(),
            logged(
                old(self)@,
                final(self)@,
                act,
                old(self)@.default_name,
                formatted(msg@, Seq::empty()),
                level_ord(LogLevel::INFO),
            ),
    {
        let no_args: [&str; 0] = [];
        proof {
            assert(arg_views(no_args@) =~= Seq::<Seq<char>>::empty());
        }
        self.format_and_log(msg, vstd::array::array_as_slice(&no_args), LogLevel::INFO, None)
    }

    /// Send `msg` at WARNING severity under the default identity.
    /// The text passes the formatter with no arguments, so a `msg`
    /// holding placeholder tokens is reported as an invalid pattern.
    pub fn warning(&mut self, msg: &str) -> (act: SendAction)
        requires
            old(self).wf(),
            msg@.len() + INVALID_PREFIX_CHARS <= MAX_TEXT_CHARS,
        ensures
            final(self).wf(),
            logged(
                old(self)@,
                final(self)@,
                act,
                old(self)@.default_name,
                formatted(msg@, Seq::empty()),
                level_ord(LogLevel::WARNING),
            ),
    {
        let no_args: [&str; 0] = [];
        proof {
            assert(arg_views(no_args@) =~= Seq::<Seq<char>>::empty());
        }
        self.format_and_log(msg, vstd::array::array_as_slice(&no_args), LogLevel::WARNING, None)
    }

    /// Send `msg` at ERROR severity under the default identity.
    /// The text passes the formatter with no arguments, so a `msg`
    /// holding placeholder tokens is reported as an invalid pattern.
    pub fn error(&mut self, msg: &str) -> (act: SendAction)
        requires
            old(self).wf(),
            msg@.len() + INVALID_PREFIX_CHARS <= MAX_TEXT_CHARS,
        ensures
            final(self).wf(),
            logged(
                old(self)@,
                final(self)@,
                act,
                old(self)@.default_name,
                formatted(msg@, Seq::empty()),
                level_ord(LogLevel::ERROR),
            ),
    {
        let no_args: [&str; 0] = [];
        proof {
            assert(arg_views(no_args@) =~= Seq::<Seq<char>>::empty());
        }
        self.format_and_log(msg, vstd::array::array_as_slice(&no_args), LogLevel::ERROR, None)
    }

    /// Send `msg` at FATAL severity under the default identity.
    /// The text passes the formatter with no arguments, so a `msg`
    /// holding placeholder tokens is reported as an invalid pattern.
    pub fn fatal(&mut self, msg: &str) -> (act: SendAction)
        requires
            old(self).wf(),
            msg@.len() + INVALID_PREFIX_CHARS <= MAX_TEXT_CHARS,
        ensures
            final(self).wf(),
            logged(
                old(self)@,
                final(self)@,
                act,
                old(self)@.default_name,
                formatted(msg@, Seq::empty()),
                level_ord(LogLevel::FATAL),
            ),
    {
        let no_args: [&str; 0] = [];
        proof {
            assert(arg_views(no_args@) =~= Seq::<Seq<char>>::empty());
        }
        self.format_and_log(msg, vstd::array::array_as_slice(&no_args), LogLevel::FATAL, None)
    }

    /// Format `pattern` with `args` and send the result at DEBUG
    /// severity under the identity `name`.
    pub fn debug_fn(&mut self, pattern: &str, args: &[&str], name: &str) -> (act: SendAction)
        requires
            old(self).wf(),
            pattern@.len() + total_len(arg_views(args@)) + INVALID_PREFIX_CHARS <= MAX_TEXT_CHARS,
            name@.len() <= MAX_TEXT_CHARS,
        ensures
            final(self).wf(),
            logged(
                old(self)@,
                final(self)@,
                act,
                name@,
                formatted(pattern@, arg_views(args@)),
                level_ord(LogLevel::DEBUG),
            ),
    {
        self.format_and_log(pattern, args, LogLevel::DEBUG, Some(name))
    }

    /// Format `pattern` with `args` and send the result at INFO
    /// severity under the identity `name`.
    pub fn info_fn(&mut self, pattern: &str, args: &[&str], name: &str) -> (act: SendAction)
        requires
            old(self).wf(),
            pattern@.len() + total_len(arg_views(args@)) + INVALID_PREFIX_CHARS <= MAX_TEXT_CHARS,
            name@.len() <= MAX_TEXT_CHARS,
        ensures
            final(self).wf(),
            logged(
                old(self)@,
                final(self)@,
                act,
                name@,
                formatted(pattern@, arg_views(args@)),
                level_ord(LogLevel::INFO),
            ),
    {
        self.format_and_log(pattern, args, LogLevel::INFO, Some(name))
    }

    /// Format `pattern` with `args` and send the result at WARNING
    /// severity under the identity `name`.
    pub fn warning_fn(&mut self, pattern: &str, args: &[&str], name: &str) -> (act: SendAction)
        requires
            old(self).wf(),
            pattern@.len() + total_len(arg_views(args@)) + INVALID_PREFIX_CHARS <= MAX_TEXT_CHARS,
            name@.len() <= MAX_TEXT_CHARS,
        ensures
            final(self).wf(),
            logged(
                old(self)@,
                final(self)@,
                act,
                name@,
                formatted(pattern@, arg_views(args@)),
                level_ord(LogLevel::WARNING),
            ),
    {
        self.format_and_log(pattern, args, LogLevel::WARNING, Some(name))
    }

    /// Format `pattern` with `args` and send the result at ERROR
    /// severity under the identity `name`.
    pub fn error_fn(&mut self, pattern: &str, args: &[&str], name: &str) -> (act: SendAction)
        requires
            old(self).wf(),
            pattern@.len() + total_len(arg_views(args@)) + INVALID_PREFIX_CHARS <= MAX_TEXT_CHARS,
            name@.len() <= MAX_TEXT_CHARS,
        ensures
            final(self).wf(),
            logged(
                old(self)@,
                final(self)@,
                act,
                name@,
                formatted(pattern@, arg_views(args@)),
                level_ord(LogLevel::ERROR),
            ),
    {
        self.format_and_log(pattern, args, LogLevel::ERROR, Some(name))
    }

    /// Format `pattern` with `args` and send the result at FATAL
    /// severity under the identity `name`.
    pub fn fatal_fn(&mut self, pattern: &str, args: &[&str], name: &str) -> (act: SendAction)
        requires
            old(self).wf(),
            pattern@.len() + total_len(arg_views(args@)) + INVALID_PREFIX_CHARS <= MAX_TEXT_CHARS,
            name@.len() <= MAX_TEXT_CHARS,
        ensures
            final(self).wf(),
            logged(
                old(self)@,
                final(self)@,
                act,
                name@,
                formatted(pattern@, arg_views(args@)),
                level_ord(LogLevel::FATAL),
            ),
    {
        self.format_and_log(pattern, args, LogLevel::FATAL, Some(name))
    }

    /// Send `msg` at DEBUG severity under the identity `name`.
    /// The text passes the formatter with no arguments, so a `msg`
    /// holding placeholder tokens is reported as an invalid pattern.
    pub fn debug_n(&mut self, msg: &str, name: &str) -> (act: SendAction)
        requires
            old(self).wf(),
            msg@.len() + INVALID_PREFIX_CHARS <= MAX_TEXT_CHARS,
            name@.len() <= MAX_TEXT_CHARS,
        ensures
            final(self).wf(),
            logged(
                old(self)@,
                final(self)@,
                act,
                name@,
                formatted(msg@, Seq::empty()),
                level_ord(LogLevel::DEBUG),
            ),
    {
        let no_args: [&str; 0] = [];
        proof {
            assert(arg_views(no_args@) =~= Seq::<Seq<char>>::empty());
        }
        self.format_and_log(msg, vstd::array::array_as_slice(&no_args), LogLevel::DEBUG, Some(name))
    }

    /// Send `msg` at INFO severity under the identity `name`.
    /// The text passes the formatter with no arguments, so a `msg`
    /// holding placeholder tokens is reported as an invalid pattern.
    pub fn info_n(&mut self, msg: &str, name: &str) -> (act: SendAction)
        requires
            old(self).wf(),
            msg@.len() + INVALID_PREFIX_CHARS <= MAX_TEXT_CHARS,
            name@.len() <= MAX_TEXT_CHARS,
        ensures
            final(self).wf(),
            logged(
                old(self)@,
                final(self)@,
                act,
                name@,
                formatted(msg@, Seq::empty()),
                level_ord(LogLevel::INFO),
            ),
    {
        let no_args: [&str; 0] = [];
        proof {
            assert(arg_views(no_args@) =~= Seq::<Seq<char>>::empty());
        }
        self.format_and_log(msg, vstd::array::array_as_slice(&no_args), LogLevel::INFO, Some(name))
    }

    /// Send `msg` at WARNING severity under the identity `name`.
    /// The text passes the formatter with no arguments, so a `msg`
    /// holding placeholder tokens is reported as an invalid pattern.
    pub fn warning_n(&mut self, msg: &str, name: &str) -> (act: SendAction)
        requires
            old(self).wf(),
            msg@.len() + INVALID_PREFIX_CHARS <= MAX_TEXT_CHARS,
            name@.len() <= MAX_TEXT_CHARS,
        ensures
            final(self).wf(),
            logged(
                old(self)@,
                final(self)@,
                act,
                name@,
                formatted(msg@, Seq::empty()),
                level_ord(LogLevel::WARNING),
            ),
    {
        let no_args: [&str; 0] = [];
        proof {
            assert(arg_views(no_args@) =~= Seq::<Seq<char>>::empty());
        }
        self.format_and_log(msg, vstd::array::array_as_slice(&no_args), LogLevel::WARNING, Some(name))
    }

    /// Send `msg` at ERROR severity under the identity `name`.
    /// The text passes the formatter with no arguments, so a `msg`
    /// holding placeholder tokens is reported as an invalid pattern.
    pub fn error_n(&mut self, msg: &str, name: &str) -> (act: SendAction)
        requires
            old(self).wf(),
            msg@.len() + INVALID_PREFIX_CHARS <= MAX_TEXT_CHARS,
            name@.len() <= MAX_TEXT_CHARS,
        ensures
            final(self).wf(),
            logged(
                old(self)@,
                final(self)@,
                act,
                name@,
                formatted(msg@, Seq::empty()),
                level_ord(LogLevel::ERROR),
            ),
    {
        let no_args: [&str; 0] = [];
        proof {
            assert(arg_views(no_args@) =~= Seq::<Seq<char>>::empty());
        }
        self.format_and_log(msg, vstd::array::array_as_slice(&no_args), LogLevel::ERROR, Some(name))
    }

    /// Send `msg` at FATAL severity under the identity `name`.
    /// The text passes the formatter with no arguments, so a `msg`
    /// holding placeholder tokens is reported as an invalid pattern.
    pub fn fatal_n(&mut self, msg: &str, name: &str) -> (act: SendAction)
        requires
            old(self).wf(),
            msg@.len() + INVALID_PREFIX_CHARS <= MAX_TEXT_CHARS,
            name@.len() <= MAX_TEXT_CHARS,
        ensures
            final(self).wf(),
            logged(
                old(self)@,
                final(self)@,
                act,
                name@,
                formatted(msg@, Seq::empty()),
                level_ord(LogLevel::FATAL),
            ),
    {
        let no_args: [&str; 0] = [];
        proof {
            assert(arg_views(no_args@) =~= Seq::<Seq<char>>::empty());
        }
        self.format_and_log(msg, vstd::array::array_as_slice(&no_args), LogLevel::FATAL, Some(name))
    }
}

} // verus!
