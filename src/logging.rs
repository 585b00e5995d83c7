//! Severity levels, their textual names, and structured fields.

use vstd::prelude::*;

use crate::schema::{field_model, fields_model, FieldValue, FieldValueModel, LogField, LogFieldModel};

verus! {

/// Severity of a log record, ordered `Debug < Info < Warn < Error`.
#[derive(Clone, Copy, Debug, PartialEq, Eq, Structural)]
pub enum Level {
    Debug,
    Info,
    Warn,
    Error,
}

/// Position of a level in the severity order.
pub open spec fn rank(l: Level) -> nat {
    match l {
        Level::Debug => 0,
        Level::Info => 1,
        Level::Warn => 2,
        Level::Error => 3,
    }
}

/// Whether a record at `level` is filtered out by a `threshold`.
pub open spec fn below(level: Level, threshold: Level) -> bool {
    rank(level) < rank(threshold)
}

/// The textual name of a level.
pub open spec fn level_name(l: Level) -> Seq<char> {
    match l {
        Level::Debug => "debug"@,
        Level::Info => "info"@,
        Level::Warn => "warning"@,
        Level::Error => "error"@,
    }
}

/// The level whose textual name is `s`, if any: only the four exact
/// lowercase names are recognized.
pub open spec fn parse_level(s: Seq<char>) -> Option<Level> {
    if s == "debug"@ {
        Some(Level::Debug)
    } else if s == "info"@ {
        Some(Level::Info)
    } else if s == "warning"@ {
        Some(Level::Warn)
    } else if s == "error"@ {
        Some(Level::Error)
    } else {
        None
    }
}

impl Level {
    /// Position of this level in the severity order.
    pub fn rank(&self) -> (r: u8)
        ensures
            r as nat == rank(*self),
    {
        match self {
            Level::Debug => 0,
            Level::Info => 1,
            Level::Warn => 2,
            Level::Error => 3,
        }
    }

    /// The textual name of this level.
    pub fn name(&self) -> (r: &'static str)
        ensures
            r@ == level_name(*self),
    {
        match self {
            Level::Debug => "debug",
            Level::Info => "info",
            Level::Warn => "warning",
            Level::Error => "error",
        }
    }

    /// Whether a record at this level is filtered out by `threshold`.
    pub fn is_below(&self, threshold: Level) -> (r: bool)
        ensures
            r == below(*self, threshold),
    {
        self.rank() < threshold.rank()
    }
}

/// Each level's name reads back as that level, and only the four names
/// are read as a level at all.
pub proof fn lemma_level_names(l: Level, s: Seq<char>)
    ensures
        parse_level(level_name(l)) == Some(l),
        parse_level(s) == Some(l) <==> s == level_name(l),
{
    reveal_strlit("debug");
    reveal_strlit("info");
    reveal_strlit("warning");
    reveal_strlit("error");
    assert("debug"@.len() == 5 && "info"@.len() == 4 && "warning"@.len() == 7 && "error"@.len() == 5);
    assert("debug"@[0] != "error"@[0]);
}

/// Failure to read a severity level from its name.
#[derive(Clone, Copy, Debug, PartialEq, Eq, Structural)]
pub enum LogError {
    LogLevelParseError,
}

/// Reads a severity level from its exact lowercase name.
pub fn convert_to_log_level(level: &str) -> (r: Result<Level, LogError>)
    ensures
        match parse_level(level@) {
            Some(l) => r == Ok::<Level, LogError>(l),
            None => r == Err::<Level, LogError>(LogError::LogLevelParseError),
        },
{
    let name = level.to_owned();
    if name.eq(&"debug".to_owned()) {
        Ok(Level::Debug)
    } else if name.eq(&"info".to_owned()) {
        Ok(Level::Info)
    } else if name.eq(&"warning".to_owned()) {
        Ok(Level::Warn)
    } else if name.eq(&"error".to_owned()) {
        Ok(Level::Error)
    } else {
        Err(LogError::LogLevelParseError)
    }
}

/// Appends `field` to `fields`.
fn push_field(fields: &mut Vec<LogField>, name: &str, value: FieldValue)
    ensures
        fields_model(final(fields)@) == fields_model(old(fields)@).push(
            field_model(name@, value@),
        ),
{
    let field = LogField { name: name.to_owned(), field: Some(value) };
    fields.push(field);
    assert(fields_model(fields@) =~= fields_model(old(fields)@).push(field_model(name@, value@)));
}

/// Appends a string field named `name` to `fields`.
pub fn add_field_str(fields: &mut Vec<LogField>, name: &str, val: &str)
    ensures
        fields_model(final(fields)@) == fields_model(old(fields)@).push(
            field_model(name@, FieldValueModel::Str(val@)),
        ),
{
    push_field(fields, name, FieldValue::Str(val.to_owned()));
}

/// Appends a signed integer field named `name` to `fields`.
pub fn add_field_i64(fields: &mut Vec<LogField>, name: &str, val: i64)
    ensures
        fields_model(final(fields)@) == fields_model(old(fields)@).push(
            field_model(name@, FieldValueModel::Int(val)),
        ),
{
    push_field(fields, name, FieldValue::Int(val));
}

/// Appends a floating-point field named `name` to `fields`, given the
/// number's IEEE-754 binary64 bit pattern.
pub fn add_field_float64_bits(fields: &mut Vec<LogField>, name: &str, bits: u64)
    ensures
        fields_model(final(fields)@) == fields_model(old(fields)@).push(
            field_model(name@, FieldValueModel::Float(bits)),
        ),
{
    push_field(fields, name, FieldValue::Float(bits));
}

/// Appends an unsigned integer field named `name` to `fields`.
pub fn add_field_uint64(fields: &mut Vec<LogField>, name: &str, val: u64)
    ensures
        fields_model(final(fields)@) == fields_model(old(fields)@).push(
            field_model(name@, FieldValueModel::Uint(val)),
        ),
{
    push_field(fields, name, FieldValue::Uint(val));
}

/// Appends a boolean field named `name` to `fields`.
pub fn add_field_bool(fields: &mut Vec<LogField>, name: &str, val: bool)
    ensures
        fields_model(final(fields)@) == fields_model(old(fields)@).push(
            field_model(name@, FieldValueModel::Bool(val)),
        ),
{
    push_field(fields, name, FieldValue::Bool(val));
}

/// What a logger is: the fields it adds to each record, and the level below
/// which it drops records.
pub struct LoggerModel {
    pub base: Seq<LogFieldModel>,
    pub threshold: Level,
}

/// A logger with `extra` appended to its base fields.
pub open spec fn bound(m: LoggerModel, extra: Seq<LogFieldModel>) -> LoggerModel {
    LoggerModel { base: m.base + extra, threshold: m.threshold }
}

/// The fields of the record that logging `fields` at `level` produces,
/// or `None` when the level is below the threshold: the call-site fields
/// come first, the base fields after them.
pub open spec fn emitted(m: LoggerModel, level: Level, fields: Seq<LogFieldModel>) -> Option<
    Seq<LogFieldModel>,
> {
    if below(level, m.threshold) {
        None
    } else {
        Some(fields + m.base)
    }
}

/// The fields of the record that logging `fields` at `level` without the
/// base fields produces, or `None` when the level is below the threshold.
pub open spec fn emitted_alone(m: LoggerModel, level: Level, fields: Seq<LogFieldModel>) -> Option<
    Seq<LogFieldModel>,
> {
    if below(level, m.threshold) {
        None
    } else {
        Some(fields)
    }
}

/// The model of the one field that names a logger.
pub open spec fn name_field(name: Seq<char>) -> LogFieldModel {
    field_model("logger"@, FieldValueModel::Str(name))
}

/// Binding `f1` and then `f2` leaves a logger that emits exactly what a
/// logger that bound `f1 ++ f2` at once emits, for every later call; from a
/// logger without base fields, that is a logger made with base fields
/// `f1 ++ f2`.
pub proof fn lemma_bind_twice(m: LoggerModel, f1: Seq<LogFieldModel>, f2: Seq<LogFieldModel>)
    ensures
        bound(bound(m, f1), f2) == bound(m, f1 + f2),
        m.base.len() == 0 ==> bound(bound(m, f1), f2) == (LoggerModel {
            base: f1 + f2,
            threshold: m.threshold,
        }),
        forall|level: Level, fields: Seq<LogFieldModel>|
            emitted(bound(bound(m, f1), f2), level, fields) == emitted(bound(m, f1 + f2), level, fields),
{
    assert(m.base + f1 + f2 =~= m.base + (f1 + f2));
    if m.base.len() == 0 {
        assert(m.base + (f1 + f2) =~= f1 + f2);
    }
}

/// `fields` followed by clones of `base`.
pub(crate) fn concat_fields(fields: Vec<LogField>, base: &Vec<LogField>) -> (r: Vec<LogField>)
    ensures
        fields_model(r@) == fields_model(fields@) + fields_model(base@),
{
    let mut out = fields;
    let ghost start = fields_model(out@);
    let mut i: usize = 0;
    while i < base.len()
        invariant
            i <= base@.len(),
            fields_model(out@) == start + fields_model(base@).subrange(0, i as int),
        decreases base@.len() - i,
    {
        let f = base[i].clone();
        let ghost prev = out@;
        out.push(f);
        assert(fields_model(out@) =~= fields_model(prev).push(base@[i as int]@));
        assert(fields_model(base@).subrange(0, i + 1) =~= fields_model(base@).subrange(
            0,
            i as int,
        ).push(base@[i as int]@));
        i = i + 1;
    }
    assert(fields_model(base@).subrange(0, base@.len() as int) =~= fields_model(base@));
    out
}

} // verus!
