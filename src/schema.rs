//! The records that the relay carries: structured fields, log messages,
//! file payloads and introspection events.

use vstd::prelude::*;

use crate::logging::Level;

verus! {

/// A point in time: seconds and nanoseconds since the Unix epoch.
#[derive(Clone, Copy, Debug, PartialEq, Eq, Structural)]
pub struct Timestamp {
    pub seconds: i64,
    pub nanos: i32,
}

/// A span of time in seconds and nanoseconds.
#[derive(Clone, Copy, Debug, PartialEq, Eq, Structural)]
pub struct Duration {
    pub seconds: i64,
    pub nanos: i32,
}

/// The value of a structured field.
#[derive(Debug)]
pub enum FieldValue {
    Str(String),
    Int(i64),
    Uint(u64),
    /// A binary64 floating-point number, held as its IEEE-754 bit pattern.
    Float(u64),
    Bool(bool),
    Binary(Vec<u8>),
    ByteString(Vec<u8>),
    Time(Timestamp),
    Duration(Duration),
}

/// What a field value holds, with strings and buffers as sequences.
pub enum FieldValueModel {
    Str(Seq<char>),
    Int(i64),
    Uint(u64),
    Float(u64),
    Bool(bool),
    Binary(Seq<u8>),
    ByteString(Seq<u8>),
    Time(Timestamp),
    Duration(Duration),
}

impl View for FieldValue {
    type V = FieldValueModel;

    open spec fn view(&self) -> FieldValueModel {
        match self {
            FieldValue::Str(s) => FieldValueModel::Str(s@),
            FieldValue::Int(i) => FieldValueModel::Int(*i),
            FieldValue::Uint(u) => FieldValueModel::Uint(*u),
            FieldValue::Float(b) => FieldValueModel::Float(*b),
            FieldValue::Bool(b) => FieldValueModel::Bool(*b),
            FieldValue::Binary(b) => FieldValueModel::Binary(b@),
            FieldValue::ByteString(b) => FieldValueModel::ByteString(b@),
            FieldValue::Time(t) => FieldValueModel::Time(*t),
            FieldValue::Duration(d) => FieldValueModel::Duration(*d),
        }
    }
}

impl Clone for FieldValue {
    fn clone(&self) -> (r: Self)
        ensures
            r@ == self@,
    {
        match self {
            FieldValue::Str(s) => FieldValue::Str(s.clone()),
            FieldValue::Int(i) => FieldValue::Int(*i),
            FieldValue::Uint(u) => FieldValue::Uint(*u),
            FieldValue::Float(b) => FieldValue::Float(*b),
            FieldValue::Bool(b) => FieldValue::Bool(*b),
            FieldValue::Binary(b) => {
                let c = b.clone();
                assert(c@ =~= b@);
                FieldValue::Binary(c)
            },
            FieldValue::ByteString(b) => {
                let c = b.clone();
                assert(c@ =~= b@);
                FieldValue::ByteString(c)
            },
            FieldValue::Time(t) => FieldValue::Time(*t),
            FieldValue::Duration(d) => FieldValue::Duration(*d),
        }
    }
}

/// A named value attached to a log record.
#[derive(Debug)]
pub struct LogField {
    pub name: String,
    pub field: Option<FieldValue>,
}

/// What a field holds: its name and, if set, its value.
pub struct LogFieldModel {
    pub name: Seq<char>,
    pub value: Option<FieldValueModel>,
}

impl View for LogField {
    type V = LogFieldModel;

    open spec fn view(&self) -> LogFieldModel {
        LogFieldModel {
            name: self.name@,
            value: match self.field {
                Some(v) => Some(v@),
                None => None,
            },
        }
    }
}

impl Clone for LogField {
    fn clone(&self) -> (r: Self)
        ensures
            r@ == self@,
    {
        let field = match &self.field {
            Some(v) => Some(v.clone()),
            None => None,
        };
        LogField { name: self.name.clone(), field }
    }
}

/// The models of a sequence of fields, in order.
pub open spec fn fields_model(fields: Seq<LogField>) -> Seq<LogFieldModel> {
    fields.map_values(|f: LogField| f@)
}

/// A field with the given name and value.
pub open spec fn field_model(name: Seq<char>, value: FieldValueModel) -> LogFieldModel {
    LogFieldModel { name, value: Some(value) }
}

/// Severity as carried by a log message; `Unknown` is never produced from a
/// [`Level`].
#[derive(Clone, Copy, Debug, PartialEq, Eq, Structural)]
pub enum LogLevel {
    Unknown,
    Debug,
    Info,
    Warn,
    Error,
}

/// The carried severity for a level.
pub open spec fn log_level_of(level: Level) -> LogLevel {
    match level {
        Level::Debug => LogLevel::Debug,
        Level::Info => LogLevel::Info,
        Level::Warn => LogLevel::Warn,
        Level::Error => LogLevel::Error,
    }
}

impl From<Level> for LogLevel {
    fn from(level: Level) -> (r: LogLevel) {
        match level {
            Level::Info => LogLevel::Info,
            Level::Debug => LogLevel::Debug,
            Level::Warn => LogLevel::Warn,
            Level::Error => LogLevel::Error,
        }
    }
}

impl vstd::std_specs::convert::FromSpecImpl<Level> for LogLevel {
    open spec fn obeys_from_spec() -> bool {
        true
    }

    open spec fn from_spec(level: Level) -> LogLevel {
        log_level_of(level)
    }
}

/// A log record as queued for delivery.
#[derive(Debug)]
pub struct LogMessage {
    pub time_unix: u64,
    pub level: LogLevel,
    pub msg: String,
    pub fields: Vec<LogField>,
}

/// One item of the log stream.
#[derive(Debug)]
pub struct ReadLogResponse {
    pub log: Option<LogMessage>,
    pub trace_id: Vec<u8>,
    pub span_id: Vec<u8>,
}

/// A named payload that a client is to write to a file.
#[derive(Debug)]
pub struct DumpMsgToFileResponse {
    pub filename: String,
    pub message: Vec<u8>,
}

/// The kind of an introspection event.
#[derive(Clone, Copy, Debug, PartialEq, Eq, Structural)]
pub enum Event {
    VmProcessStart,
    VmProcessEnd,
    BsodDetected,
    VmiReady,
    VmiFinished,
    Error,
    InMemDetection,
}

/// Which process-lifecycle event to report.
#[derive(Clone, Copy, Debug, PartialEq, Eq, Structural)]
pub enum ProcessState {
    Started,
    Terminated,
}

/// A process of the guest, as reported when it starts or ends.
#[derive(Debug)]
pub struct ProcessInfo {
    pub process_name: String,
    pub process_id: u32,
    pub cr3: String,
}

/// The payload of an introspection event.
#[derive(Debug)]
pub enum EventMessage {
    VmProcessStart(ProcessInfo),
    VmProcessEnd(ProcessInfo),
    BsodDetected { code: i64 },
    Ready,
    Finished,
    Error { message: String },
    InMemDetection { detection: String },
}

/// One item of the event stream.
#[derive(Debug)]
pub struct ListenForEventsResponse {
    pub event: Event,
    pub timestamp: Option<Timestamp>,
    pub message: Option<EventMessage>,
}

} // verus!
