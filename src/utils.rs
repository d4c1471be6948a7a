//! Conversions of value texts shared by the parsers.
use vstd::prelude::*;
use crate::error::{parse_error, unit_error, MetricError};
use crate::text::{
    chars_eq, chars_of, hex_u64_of, i64_of, parse_hex_u64, parse_i64, parse_u64, string_of, u64_of,
};

verus! {

/// The number of bytes in one unit of `unit`, for the units the kernel writes.
pub open spec fn unit_scale(unit: Seq<char>) -> Option<nat> {
    if unit == "B"@ {
        Some(1)
    } else if unit == "KiB"@ || unit == "kiB"@ || unit == "kB"@ || unit == "KB"@ {
        Some(1024)
    } else if unit == "MiB"@ || unit == "miB"@ || unit == "MB"@ || unit == "mB"@ {
        Some(1024 * 1024)
    } else if unit == "GiB"@ || unit == "giB"@ || unit == "GB"@ || unit == "gB"@ {
        Some(1024 * 1024 * 1024)
    } else {
        None
    }
}

fn same(a: &Vec<char>, lit: &str) -> (r: bool)
    ensures
        r == (a@ == lit@),
{
    chars_eq(a, &chars_of(lit))
}

/// The number of bytes in one `unit`, if the unit is known.
pub fn unit_bytes(unit: &str) -> (r: Option<u64>)
    ensures
        match unit_scale(unit@) {
            Some(s) => r == Some(s as u64),
            None => r is None,
        },
{
    let u = chars_of(unit);
    if same(&u, "B") {
        Some(1)
    } else if same(&u, "KiB") || same(&u, "kiB") || same(&u, "kB") || same(&u, "KB") {
        Some(1024)
    } else if same(&u, "MiB") || same(&u, "miB") || same(&u, "MB") || same(&u, "mB") {
        Some(1048576)
    } else if same(&u, "GiB") || same(&u, "giB") || same(&u, "GB") || same(&u, "gB") {
        Some(1073741824)
    } else {
        None
    }
}

/// `num` units of `unit` in bytes; an error where the unit is not known.
pub fn convert_to_bytes(num: u64, unit: &str) -> (r: Result<Option<u64>, MetricError>)
    requires
        match unit_scale(unit@) {
            Some(s) => num * s <= u64::MAX,
            None => true,
        },
    ensures
        match unit_scale(unit@) {
            Some(s) => r == Ok::<Option<u64>, MetricError>(Some((num * s) as u64)),
            None => r is Err && unit_error(r->Err_0, unit@),
        },
{
    let u = chars_of(unit);
    if same(&u, "B") {
        Ok(Some(num))
    } else if same(&u, "KiB") || same(&u, "kiB") || same(&u, "kB") || same(&u, "KB") {
        Ok(Some(num * 1024))
    } else if same(&u, "MiB") || same(&u, "miB") || same(&u, "MB") || same(&u, "mB") {
        Ok(Some(num * 1048576))
    } else if same(&u, "GiB") || same(&u, "giB") || same(&u, "GB") || same(&u, "gB") {
        Ok(Some(num * 1073741824))
    } else {
        let name = string_of(&u);
        assert(unit_scale(unit@) is None);
        assert(unit_error(MetricError::ByteConvertError(name), unit@));
        Err(MetricError::ByteConvertError(name))
    }
}

/// The `i64` that `value` writes; an error where it writes none.
pub fn convert_str_to_i64(value: &str) -> (r: Result<i64, MetricError>)
    ensures
        match i64_of(value@) {
            Some(v) => r == Ok::<i64, MetricError>(v),
            None => r is Err && parse_error(r->Err_0, value@, value@),
        },
{
    let v = chars_of(value);
    match parse_i64(&v) {
        Some(n) => Ok(n),
        None => Err(MetricError::ParseIntError(string_of(&v), string_of(&v))),
    }
}

/// The `u64` that `value` writes; an error where it writes none.
pub fn convert_str_to_u64(value: &str) -> (r: Result<u64, MetricError>)
    ensures
        match u64_of(value@) {
            Some(v) => r == Ok::<u64, MetricError>(v),
            None => r is Err && parse_error(r->Err_0, value@, value@),
        },
{
    let v = chars_of(value);
    match parse_u64(&v) {
        Some(n) => Ok(n),
        None => Err(MetricError::ParseIntError(string_of(&v), string_of(&v))),
    }
}

/// The `u64` that `value` writes in hexadecimal, with or without `0x`; an
/// error where it writes none.
pub fn convert_hex_to_u64(value: &str) -> (r: Result<u64, MetricError>)
    ensures
        match hex_u64_of(value@) {
            Some(v) => r == Ok::<u64, MetricError>(v),
            None => r is Err && parse_error(r->Err_0, value@, value@),
        },
{
    let v = chars_of(value);
    match parse_hex_u64(&v) {
        Some(n) => Ok(n),
        None => Err(MetricError::ParseIntError(string_of(&v), string_of(&v))),
    }
}

} // verus!
