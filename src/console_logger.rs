//! A logger whose records are written to standard output by its caller.

use vstd::prelude::*;

use crate::logging::{
    bound, concat_fields, emitted, emitted_alone, name_field, Level, LoggerModel,
};
use crate::schema::{fields_model, FieldValue, LogField, LogFieldModel};

verus! {

/// Makes console loggers that share one threshold.
pub struct ConsoleLoggerBuilder {
    log_level: Level,
}

impl View for ConsoleLoggerBuilder {
    type V = Level;

    closed spec fn view(&self) -> Level {
        self.log_level
    }
}

/// A builder whose loggers drop records below `Info`.
pub fn new_console_logger_builder() -> (r: ConsoleLoggerBuilder)
    ensures
        r@ == Level::Info,
{
    ConsoleLoggerBuilder { log_level: Level::Info }
}

impl ConsoleLoggerBuilder {
    /// A logger with no base fields and this builder's threshold.
    pub fn new_logger(&self) -> (r: ConsoleLogger)
        ensures
            r@ == (LoggerModel { base: Seq::empty(), threshold: self@ }),
    {
        let r = ConsoleLogger { base_fields: Vec::new(), log_level: self.log_level };
        assert(fields_model(r.base_fields@) =~= Seq::empty());
        r
    }

    /// A logger with this builder's threshold whose one base field,
    /// `logger`, holds `name`.
    pub fn new_named_logger(&self, name: &str) -> (r: ConsoleLogger)
        ensures
            r@ == (LoggerModel { base: seq![name_field(name@)], threshold: self@ }),
    {
        let log_field = LogField { name: "logger".to_owned(), field: Some(FieldValue::Str(name.to_owned())) };
        let mut base_fields = Vec::new();
        base_fields.push(log_field);
        let r = ConsoleLogger { base_fields, log_level: self.log_level };
        assert(fields_model(r.base_fields@) =~= seq![name_field(name@)]);
        r
    }

    /// Sets the threshold of the loggers made from now on.
    pub fn set_log_level(&mut self, log_level: Level)
        ensures
            final(self)@ == log_level,
    {
        self.log_level = log_level
    }
}

/// A record that a console logger has accepted, ready to be written out.
pub struct LogRecord {
    pub level: Level,
    pub message: String,
    pub fields: Vec<LogField>,
}

/// Whether `r` is the record for `message` at `level` with the fields
/// `expected`, or `None` exactly when nothing is to be written.
pub open spec fn record_matches(
    r: Option<LogRecord>,
    level: Level,
    message: Seq<char>,
    expected: Option<Seq<LogFieldModel>>,
) -> bool {
    match r {
        None => expected is None,
        Some(rec) => {
            &&& expected == Some(fields_model(rec.fields@))
            &&& rec.level == level
            &&& rec.message@ == message
        },
    }
}

/// A logger that hands each accepted record back for writing to the
/// console.
pub struct ConsoleLogger {
    base_fields: Vec<LogField>,
    log_level: Level,
}

impl View for ConsoleLogger {
    type V = LoggerModel;

    closed spec fn view(&self) -> LoggerModel {
        LoggerModel { base: fields_model(self.base_fields@), threshold: self.log_level }
    }
}

impl ConsoleLogger {
    /// Appends `fields` to the base fields.
    pub fn bind(&mut self, fields: Vec<LogField>)
        ensures
            final(self)@ == bound(old(self)@, fields_model(fields@)),
    {
        let mut fields = fields;
        let ghost added = fields@;
        self.base_fields.append(&mut fields);
        assert(fields_model(self.base_fields@) =~= fields_model(old(self).base_fields@)
            + fields_model(added));
    }

    /// A copy of the base fields.
    pub fn clone_base_fields(&self, capacity: usize) -> (r: Vec<LogField>)
        requires
            self@.base.len() + capacity <= usize::MAX,
        ensures
            fields_model(r@) == self@.base,
    {
        let cloned_fields = Vec::with_capacity(self.base_fields.len() + capacity);
        let r = concat_fields(cloned_fields, &self.base_fields);
        assert(fields_model(cloned_fields@) + fields_model(self.base_fields@) =~= fields_model(
            self.base_fields@,
        ));
        r
    }

    /// The record for `message` at `level`, with `fields` followed by the
    /// base fields; `None` when `level` is below the threshold.
    pub fn log(&self, level: Level, message: &str, fields: Vec<LogField>) -> (r: Option<LogRecord>)
        ensures
            record_matches(r, level, message@, emitted(self@, level, fields_model(fields@))),
    {
        if level.is_below(self.log_level) {
            return None;
        }
        let fields = concat_fields(fields, &self.base_fields);
        Some(LogRecord { level, message: message.to_owned(), fields })
    }

    /// The record for `message` at `level` with `fields` alone; `None` when
    /// `level` is below the threshold.
    pub fn log_no_base_fields(&self, level: Level, message: &str, fields: Vec<LogField>) -> (r:
        Option<LogRecord>)
        ensures
            record_matches(r, level, message@, emitted_alone(self@, level, fields_model(fields@))),
    {
        if level.is_below(self.log_level) {
            return None;
        }
        Some(LogRecord { level, message: message.to_owned(), fields })
    }
}

} // verus!
