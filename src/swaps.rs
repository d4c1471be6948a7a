//! Swap areas of `/proc/swaps`.
use vstd::prelude::*;
use crate::columns::{col_i32, col_text, col_u64, i32_or_zero, u64_or_zero};
use crate::error::MetricError;
use crate::text::{chars_of, split_whitespace, string_of, ws_words};

verus! {

/// One swap area: its file, kind, size and use in kB, and priority.
#[derive(Debug, Clone)]
pub struct Swaps {
    pub filename: String,
    pub swap_type: String,
    pub size: u64,
    pub used: u64,
    pub priority: i32,
}

impl Swaps {
    /// A line of the file has the columns that a record needs.
    pub open spec fn fits(w: Seq<Seq<char>>) -> bool {
        w.len() == 5
    }

    /// Each field holds what its column gives.
    pub open spec fn read_from(&self, w: Seq<Seq<char>>) -> bool {
        self.filename@ == w[0]
            && self.swap_type@ == w[1]
            && self.size == u64_or_zero(w[2])
            && self.used == u64_or_zero(w[3])
            && self.priority == i32_or_zero(w[4])
    }

    /// The record of a line whose columns are `w`.
    pub fn from_columns(w: &Vec<Vec<char>>) -> (r: Self)
        requires
            Self::fits(w.deep_view()),
        ensures
            r.read_from(w.deep_view()),
    {
        assert(w.deep_view()[0] == w@[0]@);
        assert(w.deep_view()[1] == w@[1]@);
        assert(w.deep_view()[2] == w@[2]@);
        assert(w.deep_view()[3] == w@[3]@);
        assert(w.deep_view()[4] == w@[4]@);
        Swaps {
            filename: col_text(&w[0]),
            swap_type: col_text(&w[1]),
            size: col_u64(&w[2]),
            used: col_u64(&w[3]),
            priority: col_i32(&w[4]),
        }
    }

    /// The record of one line of the file.
    pub fn from_line(line: &str) -> (r: Result<Self, MetricError>)
        ensures
            r is Ok <==> Self::fits(ws_words(line@)),
            r is Ok ==> r->Ok_0.read_from(ws_words(line@)),
    {
        let w = split_whitespace(&chars_of(line));
        if !(w.len() == 5) {
            return Err(MetricError::InvalidFieldNumberError(string_of(&chars_of("swaps")), w.len(), string_of(&chars_of(line))));
        }
        Ok(Self::from_columns(&w))
    }

    /// The records of the file given as its lines, the first 1 being headers.
    pub fn parse(lines: &Vec<String>) -> (r: Result<Vec<Self>, MetricError>)
        ensures
            r is Ok <==> (forall|i: int| 1 <= i < lines.len() ==> Self::fits(#[trigger] ws_words(lines@[i]@))),
            r is Ok ==> r->Ok_0.len() == (if lines.len() >= 1 { lines.len() - 1 } else { 0 }),
            r is Ok ==> forall|k: int| 0 <= k < r->Ok_0.len() ==> (#[trigger] r->Ok_0@[k]).read_from(ws_words(lines@[k + 1]@)),
    {
        let mut out: Vec<Self> = Vec::new();
        let mut i: usize = 1;
        if lines.len() < 1 {
            return Ok(out);
        }
        while i < lines.len()
            invariant
                1 <= i <= lines.len(),
                out.len() == i - 1,
                forall|j: int| 1 <= j < i ==> Self::fits(#[trigger] ws_words(lines@[j]@)),
                forall|k: int| 0 <= k < out.len() ==> (#[trigger] out@[k]).read_from(ws_words(lines@[k + 1]@)),
            decreases lines.len() - i,
        {
            let rec = Self::from_line(lines[i].as_str())?;
            out.push(rec);
            i += 1;
        }
        Ok(out)
    }
}

} // verus!
