//! A logger whose records are queued for the log stream.

use vstd::prelude::*;

use std::io::Write;

use async_std::channel::{SendError, Sender};

use crate::channel;
use crate::logging::{below, bound, concat_fields, emitted, emitted_alone, Level, LoggerModel};
use crate::schema::{fields_model, log_level_of, LogFieldModel, LogField, LogLevel, LogMessage};
use crate::time;

verus! {

/// Failure to queue a log record.
#[derive(Clone, Copy, Debug, PartialEq, Eq, Structural)]
pub enum LogError {
    /// The log queue is closed: the server is shutting down.
    LoggingClosedError,
}

/// Whether `r` is the message for `message` at `level`, stamped
/// `time_unix`, with the fields `expected`; or `None` exactly when
/// `expected` is.
pub open spec fn message_matches(
    r: Option<LogMessage>,
    time_unix: u64,
    level: Level,
    message: Seq<char>,
    expected: Option<Seq<LogFieldModel>>,
) -> bool {
    match r {
        None => expected is None,
        Some(m) => {
            &&& expected == Some(fields_model(m.fields@))
            &&& m.time_unix == time_unix
            &&& m.level == log_level_of(level)
            &&& m.msg@ == message
        },
    }
}

/// Relies on `std::io::Write` for `std::io::stdout()`: writes one line
/// describing `msg` to standard output; a failed write is ignored.
#[verifier::external_body]
fn mirror_to_stdout(msg: &LogMessage) {
    let _ = writeln!(std::io::stdout(), "{} {:?} {} {:?}", msg.time_unix, msg.level, msg.msg, msg.fields);
}

/// The outcome of a call to `log` once the queue has answered: success
/// exactly when the record was queued.
pub fn delivery_outcome(sent: Result<(), SendError<LogMessage>>) -> (r: Result<(), LogError>)
    ensures
        r == (if sent is Ok {
            Ok::<(), LogError>(())
        } else {
            Err::<(), LogError>(LogError::LoggingClosedError)
        }),
{
    match sent {
        Ok(()) => Ok(()),
        Err(_) => Err(LogError::LoggingClosedError),
    }
}

/// A logger bound to the server's log queue.
pub struct GrpcLogger {
    sender: Sender<LogMessage>,
    base_fields: Vec<LogField>,
    log_level: Level,
    enable_debug: bool,
}

impl View for GrpcLogger {
    type V = LoggerModel;

    closed spec fn view(&self) -> LoggerModel {
        LoggerModel { base: fields_model(self.base_fields@), threshold: self.log_level }
    }
}

impl GrpcLogger {
    /// The queue that this logger sends its records to.
    pub closed spec fn queue(&self) -> Sender<LogMessage> {
        self.sender
    }

    /// Whether each queued record is also written to standard output.
    pub closed spec fn mirrors(&self) -> bool {
        self.enable_debug
    }

    /// A logger that queues on `sender`, with `fields` as its base fields.
    pub fn new(log_level: Level, enable_debug: bool, sender: Sender<LogMessage>, fields: Vec<LogField>) -> (r:
        GrpcLogger)
        ensures
            r@ == (LoggerModel { base: fields_model(fields@), threshold: log_level }),
            r.mirrors() == enable_debug,
            r.queue() == sender,
    {
        GrpcLogger { log_level, sender, enable_debug, base_fields: fields }
    }

    /// Appends `fields` to the base fields.
    pub fn bind(&mut self, fields: Vec<LogField>)
        ensures
            final(self)@ == bound(old(self)@, fields_model(fields@)),
            final(self).mirrors() == old(self).mirrors(),
            final(self).queue() == old(self).queue(),
    {
        let mut fields = fields;
        let ghost added = fields@;
        self.base_fields.append(&mut fields);
        assert(fields_model(self.base_fields@) =~= fields_model(old(self).base_fields@)
            + fields_model(added));
    }

    /// A copy of the base fields.
    pub fn clone_base_fields(&self, capacity: usize) -> (r: Vec<LogField>)
        requires
            self@.base.len() + capacity <= usize::MAX,
        ensures
            fields_model(r@) == self@.base,
    {
        let cloned_fields = Vec::with_capacity(self.base_fields.len() + capacity);
        let r = concat_fields(cloned_fields, &self.base_fields);
        assert(fields_model(cloned_fields@) + fields_model(self.base_fields@) =~= fields_model(
            self.base_fields@,
        ));
        r
    }

    /// The message that `log` queues for `message` at `level` when the clock
    /// reads `time_unix`: `fields` followed by the base fields. `None` when
    /// `level` is below the threshold.
    pub fn record(&self, level: Level, message: &str, fields: Vec<LogField>, time_unix: u64) -> (r:
        Option<LogMessage>)
        ensures
            message_matches(r, time_unix, level, message@, emitted(self@, level, fields_model(fields@))),
    {
        if level.is_below(self.log_level) {
            return None;
        }
        let fields = concat_fields(fields, &self.base_fields);
        Some(LogMessage { time_unix, level: LogLevel::from(level), msg: message.to_owned(), fields })
    }

    /// The message that `log_no_base_fields` queues for `message` at `level`
    /// when the clock reads `time_unix`: `fields` alone. `None` when `level`
    /// is below the threshold.
    pub fn record_no_base_fields(
        &self,
        level: Level,
        message: &str,
        fields: Vec<LogField>,
        time_unix: u64,
    ) -> (r: Option<LogMessage>)
        ensures
            message_matches(r, time_unix, level, message@, emitted_alone(self@, level, fields_model(fields@))),
    {
        if level.is_below(self.log_level) {
            return None;
        }
        Some(LogMessage { time_unix, level: LogLevel::from(level), msg: message.to_owned(), fields })
    }

    /// Queues the record for `message` at `level` (see [`GrpcLogger::record`]).
    /// Below the threshold nothing is queued and the call succeeds; otherwise
    /// it fails when the log queue is closed.
    pub fn log(&self, level: Level, message: &str, fields: Vec<LogField>) -> (r: Result<(), LogError>)
        ensures
            below(level, self@.threshold) ==> r is Ok,
            r is Ok || r == Err::<(), LogError>(LogError::LoggingClosedError),
    {
        if level.is_below(self.log_level) {
            return Ok(());
        }
        if channel::is_closed(&self.sender) {
            return Err(LogError::LoggingClosedError);
        }
        let time_unix = time::now().seconds as u64;
        match self.record(level, message, fields, time_unix) {
            Some(msg) => self.deliver(msg),
            None => Ok(()),
        }
    }

    /// Queues the record for `message` at `level` with `fields` alone (see
    /// [`GrpcLogger::record_no_base_fields`]). Below the threshold nothing is
    /// queued and the call succeeds; otherwise it fails when the log queue is
    /// closed.
    pub fn log_no_base_fields(&self, level: Level, message: &str, fields: Vec<LogField>) -> (r: Result<
        (),
        LogError,
    >)
        ensures
            below(level, self@.threshold) ==> r is Ok,
            r is Ok || r == Err::<(), LogError>(LogError::LoggingClosedError),
    {
        if level.is_below(self.log_level) {
            return Ok(());
        }
        if channel::is_closed(&self.sender) {
            return Err(LogError::LoggingClosedError);
        }
        let time_unix = time::now().seconds as u64;
        match self.record_no_base_fields(level, message, fields, time_unix) {
            Some(msg) => self.deliver(msg),
            None => Ok(()),
        }
    }

    /// Mirrors `msg` to standard output when asked to, then queues it; fails
    /// only when the queue is closed.
    fn deliver(&self, msg: LogMessage) -> (r: Result<(), LogError>)
        ensures
            r is Ok || r == Err::<(), LogError>(LogError::LoggingClosedError),
    {
        if self.enable_debug {
            mirror_to_stdout(&msg);
        }
        delivery_outcome(channel::send(&self.sender, msg))
    }
}

} // verus!
