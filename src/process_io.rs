//! I/O statistics of a process: `name: value` per line.
use vstd::prelude::*;
use crate::error::MetricError;
use crate::kv::{find_pair, pair_text, pairs_of, parse_pairs, PairView};
use crate::text::{i64_of, parse_i64, parse_u64, u64_of};

verus! {

/// The last value named `key` as a `u64`; 0 where it is absent or not a number.
pub open spec fn u64_or_zero(pairs: Seq<PairView>, key: Seq<char>) -> u64 {
    match pair_text(pairs, key) {
        Some(t) => match u64_of(t) {
            Some(v) => v,
            None => 0,
        },
        None => 0,
    }
}

/// The last value named `key` as an `i64`; 0 where it is absent or not a number.
pub open spec fn i64_or_zero(pairs: Seq<PairView>, key: Seq<char>) -> i64 {
    match pair_text(pairs, key) {
        Some(t) => match i64_of(t) {
            Some(v) => v,
            None => 0,
        },
        None => 0,
    }
}

fn read_u64_or_zero(pairs: &Vec<(Vec<char>, Vec<char>)>, key: &str) -> (r: u64)
    ensures
        r == u64_or_zero(pairs.deep_view(), key@),
{
    match find_pair(pairs, key) {
        Some(t) => match parse_u64(&t) {
            Some(v) => v,
            None => 0,
        },
        None => 0,
    }
}

fn read_i64_or_zero(pairs: &Vec<(Vec<char>, Vec<char>)>, key: &str) -> (r: i64)
    ensures
        r == i64_or_zero(pairs.deep_view(), key@),
{
    match find_pair(pairs, key) {
        Some(t) => match parse_i64(&t) {
            Some(v) => v,
            None => 0,
        },
        None => 0,
    }
}


/// The I/O statistics of `/proc/<pid>/io`.
#[derive(Debug, Clone)]
pub struct ProcessIO {
    pub rchar: u64,
    pub wchar: u64,
    pub syscr: u64,
    pub syscw: u64,
    pub read_bytes: u64,
    pub write_bytes: u64,
    pub cancelled_write_bytes: i64,
}

impl ProcessIO {
    /// Each field holds what the records give its name.
    pub open spec fn read_from(&self, pairs: Seq<PairView>) -> bool {
        self.rchar == u64_or_zero(pairs, "rchar"@)
            && self.wchar == u64_or_zero(pairs, "wchar"@)
            && self.syscr == u64_or_zero(pairs, "syscr"@)
            && self.syscw == u64_or_zero(pairs, "syscw"@)
            && self.read_bytes == u64_or_zero(pairs, "read_bytes"@)
            && self.write_bytes == u64_or_zero(pairs, "write_bytes"@)
            && self.cancelled_write_bytes == i64_or_zero(pairs, "cancelled_write_bytes"@)
    }

    /// Every field at its value before anything is read.
    pub open spec fn is_blank(&self) -> bool {
        self.rchar == 0
            && self.wchar == 0
            && self.syscr == 0
            && self.syscw == 0
            && self.read_bytes == 0
            && self.write_bytes == 0
            && self.cancelled_write_bytes == 0
    }

    pub fn new() -> (r: Self)
        ensures
            r.is_blank(),
    {
        ProcessIO {
            rchar: 0,
            wchar: 0,
            syscr: 0,
            syscw: 0,
            read_bytes: 0,
            write_bytes: 0,
            cancelled_write_bytes: 0,
        }
    }

    /// The statistics of the file, given as its lines; a value that is not a
    /// number reads as 0.
    pub fn parse(lines: &Vec<String>) -> (r: Result<Self, MetricError>)
        ensures
            match pairs_of(lines.deep_view(), ':') {
                Some(ps) => r is Ok && r->Ok_0.read_from(ps),
                None => r is Err,
            },
    {
        let pairs = parse_pairs(lines, ':', "process io")?;
        Ok(ProcessIO {
            rchar: read_u64_or_zero(&pairs, "rchar"),
            wchar: read_u64_or_zero(&pairs, "wchar"),
            syscr: read_u64_or_zero(&pairs, "syscr"),
            syscw: read_u64_or_zero(&pairs, "syscw"),
            read_bytes: read_u64_or_zero(&pairs, "read_bytes"),
            write_bytes: read_u64_or_zero(&pairs, "write_bytes"),
            cancelled_write_bytes: read_i64_or_zero(&pairs, "cancelled_write_bytes"),
        })
    }
}

} // verus!
