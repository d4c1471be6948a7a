//! The error type of every parser in the crate.
use vstd::prelude::*;
use crate::text::{decimal_text, push_decimal, push_str, string_of};

verus! {

/// An error met while reading or decoding kernel statistics.
#[derive(Debug, Clone, PartialEq, Eq)]
pub enum MetricError {
    /// Platform does not support Desktop Management Interface (DMI) information
    DmiSupportError,
    /// A file could not be read: its path and the system's message
    IOError(String, String),
    /// A value could not be written as JSON
    SerdeJsonError(String),
    /// An integer field did not parse: the item and the text found
    ParseIntError(String, String),
    /// A decimal fraction did not parse: the item and the text found
    ParseFloatError(String, String),
    /// A byte count carried a unit that is not known
    ByteConvertError(String),
    /// A line had the wrong number of fields: what was read, the count, the line
    InvalidFieldNumberError(String, usize, String),
    /// No process has this pid
    ProcessNotFound(usize),
    /// A pattern could not be compiled
    RegexError(String),
}

/// `e` reports the unknown unit `unit`.
pub open spec fn unit_error(e: MetricError, unit: Seq<char>) -> bool {
    match e {
        MetricError::ByteConvertError(u) => u@ == unit,
        _ => false,
    }
}

/// `e` reports that `item` did not parse, the text found being `text`.
pub open spec fn parse_error(e: MetricError, item: Seq<char>, text: Seq<char>) -> bool {
    match e {
        MetricError::ParseIntError(i, x) => i@ == item && x@ == text,
        _ => false,
    }
}

/// `e` reports a line with `n` fields.
pub open spec fn field_count_error(e: MetricError, n: nat) -> bool {
    match e {
        MetricError::InvalidFieldNumberError(_, k, _) => k == n,
        _ => false,
    }
}

/// `s` in double quotes.
pub open spec fn quoted(s: Seq<char>) -> Seq<char> {
    seq!['"'] + s + seq!['"']
}

/// The message that describes an error.
pub open spec fn message_text(e: MetricError) -> Seq<char> {
    match e {
        MetricError::DmiSupportError => "platform does not support Desktop Management Interface (DMI) information"@,
        MetricError::IOError(p, m) => "cannot read sysfs "@ + quoted(p@) + ": "@ + m@,
        MetricError::SerdeJsonError(m) => "json pretty error: "@ + m@,
        MetricError::ParseIntError(item, text) => item@ + " parse "@ + quoted(text@) + " int error"@,
        MetricError::ParseFloatError(item, text) => item@ + " parse "@ + quoted(text@) + " float error"@,
        MetricError::ByteConvertError(unit) => "invalid unit: "@ + unit@,
        MetricError::InvalidFieldNumberError(title, n, fields) => "invalid "@ + title@ + " fields number "@
            + decimal_text(n as nat) + ": "@ + quoted(fields@),
        MetricError::ProcessNotFound(pid) => "process (pid="@ + decimal_text(pid as nat) + ")"@ + " not found"@,
        MetricError::RegexError(m) => "invalid pattern: "@ + m@,
    }
}

fn push_quoted(s: &String, out: &mut Vec<char>)
    ensures
        final(out)@ == old(out)@ + quoted(s@),
{
    out.push('"');
    push_str(s.as_str(), out);
    out.push('"');
    assert(out@ =~= old(out)@ + quoted(s@));
}

impl MetricError {
    /// The message that describes the error.
    pub fn message(&self) -> (r: String)
        ensures
            r@ == message_text(*self),
    {
        let mut out: Vec<char> = Vec::new();
        match self {
            MetricError::DmiSupportError => {
                push_str("platform does not support Desktop Management Interface (DMI) information", &mut out);
            },
            MetricError::IOError(p, m) => {
                push_str("cannot read sysfs ", &mut out);
                push_quoted(p, &mut out);
                push_str(": ", &mut out);
                push_str(m.as_str(), &mut out);
            },
            MetricError::SerdeJsonError(m) => {
                push_str("json pretty error: ", &mut out);
                push_str(m.as_str(), &mut out);
            },
            MetricError::ParseIntError(item, text) => {
                push_str(item.as_str(), &mut out);
                push_str(" parse ", &mut out);
                push_quoted(text, &mut out);
                push_str(" int error", &mut out);
            },
            MetricError::ParseFloatError(item, text) => {
                push_str(item.as_str(), &mut out);
                push_str(" parse ", &mut out);
                push_quoted(text, &mut out);
                push_str(" float error", &mut out);
            },
            MetricError::ByteConvertError(unit) => {
                push_str("invalid unit: ", &mut out);
                push_str(unit.as_str(), &mut out);
            },
            MetricError::InvalidFieldNumberError(title, n, fields) => {
                push_str("invalid ", &mut out);
                push_str(title.as_str(), &mut out);
                push_str(" fields number ", &mut out);
                push_decimal(*n as u64, &mut out);
                push_str(": ", &mut out);
                push_quoted(fields, &mut out);
            },
            MetricError::ProcessNotFound(pid) => {
                push_str("process (pid=", &mut out);
                push_decimal(*pid as u64, &mut out);
                push_str(")", &mut out);
                push_str(" not found", &mut out);
            },
            MetricError::RegexError(m) => {
                push_str("invalid pattern: ", &mut out);
                push_str(m.as_str(), &mut out);
            },
        }
        string_of(&out)
    }
}

/// The result of a collecting or decoding function.
pub type CollectResult<T> = Result<T, MetricError>;

} // verus!
