//! Values read from the blank-separated columns of a line, where a column
//! that does not hold a number reads as 0.
use vstd::prelude::*;
use crate::text::{
    i32_of, i64_of, parse_i32, parse_i64, parse_radix16, parse_u64, radix16_of, stripped,
    stripped_end, strip_bounds, strip_end_bound, slice_chars, string_of, u64_of,
};

verus! {

pub open spec fn u64_or_zero(s: Seq<char>) -> u64 {
    match u64_of(s) {
        Some(v) => v,
        None => 0,
    }
}

pub open spec fn i64_or_zero(s: Seq<char>) -> i64 {
    match i64_of(s) {
        Some(v) => v,
        None => 0,
    }
}

pub open spec fn i32_or_zero(s: Seq<char>) -> i32 {
    match i32_of(s) {
        Some(v) => v,
        None => 0,
    }
}

/// A base-16 column, 0 where it is not one.
pub open spec fn hex_or_zero(s: Seq<char>) -> u64 {
    match radix16_of(s) {
        Some(v) => v,
        None => 0,
    }
}

pub fn col_u64(s: &Vec<char>) -> (r: u64)
    ensures
        r == u64_or_zero(s@),
{
    match parse_u64(s) {
        Some(v) => v,
        None => 0,
    }
}

pub fn col_i64(s: &Vec<char>) -> (r: i64)
    ensures
        r == i64_or_zero(s@),
{
    match parse_i64(s) {
        Some(v) => v,
        None => 0,
    }
}

pub fn col_i32(s: &Vec<char>) -> (r: i32)
    ensures
        r == i32_or_zero(s@),
{
    match parse_i32(s) {
        Some(v) => v,
        None => 0,
    }
}

pub fn col_hex(s: &Vec<char>) -> (r: u64)
    ensures
        r == hex_or_zero(s@),
{
    match parse_radix16(s) {
        Some(v) => v,
        None => 0,
    }
}

/// The column as a string.
pub fn col_text(s: &Vec<char>) -> (r: String)
    ensures
        r@ == s@,
{
    string_of(s)
}

/// The column without the `c` at its start and its end.
pub fn col_stripped(s: &Vec<char>, c: char) -> (r: Vec<char>)
    ensures
        r@ == stripped(s@, c),
{
    let (a, b) = strip_bounds(s, c);
    slice_chars(s, a, b)
}

/// The column without the `c` at its end.
pub fn col_stripped_end(s: &Vec<char>, c: char) -> (r: Vec<char>)
    ensures
        r@ == stripped_end(s@, c),
{
    let b = strip_end_bound(s, c);
    slice_chars(s, 0, b)
}

} // verus!
