//! Free memory fragments per zone, from `/proc/buddyinfo`.
use vstd::prelude::*;
use crate::columns::{col_u64, u64_or_zero};
use crate::error::MetricError;
use crate::text::{chars_of, removed, split_words, string_of, without_char, words};

verus! {

/// The free fragments of one memory zone: entry `n` of `sizes` counts the
/// free blocks of 2^n pages.
#[derive(Debug, Clone)]
pub struct BuddyInfo {
    pub node: String,
    pub zone: String,
    pub sizes: Vec<u64>,
}

/// The counts that the columns from the fifth on give, 0 where a column is
/// not a number.
pub open spec fn fragment_counts(w: Seq<Seq<char>>) -> Seq<u64> {
    Seq::new((w.len() - 4) as nat, |i: int| u64_or_zero(w[i + 4]))
}

impl BuddyInfo {
    /// A line `Node <n>, zone <name> <counts>...` has at least four columns.
    pub open spec fn fits(w: Seq<Seq<char>>) -> bool {
        w.len() >= 4
    }

    /// The node and zone are the second and fourth columns without commas.
    pub open spec fn read_from(&self, w: Seq<Seq<char>>) -> bool {
        self.node@ == removed(w[1], ',') && self.zone@ == removed(w[3], ',') && self.sizes@
            == fragment_counts(w)
    }

    pub fn new() -> (r: Self)
        ensures
            r.node@.len() == 0,
            r.zone@.len() == 0,
            r.sizes@.len() == 0,
    {
        BuddyInfo { node: String::new(), zone: String::new(), sizes: Vec::new() }
    }

    /// The zone of one line of the file.
    pub fn from_line(line: &str) -> (r: Result<Self, MetricError>)
        ensures
            r is Ok <==> Self::fits(words(line@)),
            r is Ok ==> r->Ok_0.read_from(words(line@)),
    {
        let w = split_words(&chars_of(line));
        if w.len() < 4 {
            return Err(
                MetricError::InvalidFieldNumberError(
                    string_of(&chars_of("buddyinfo")),
                    w.len(),
                    string_of(&chars_of(line)),
                ),
            );
        }
        assert(w.deep_view()[1] == w@[1]@ && w.deep_view()[3] == w@[3]@);
        let node = string_of(&without_char(&w[1], ','));
        let zone = string_of(&without_char(&w[3], ','));
        let mut sizes: Vec<u64> = Vec::new();
        let mut i: usize = 4;
        while i < w.len()
            invariant
                4 <= i <= w.len(),
                sizes@ == fragment_counts(w.deep_view()).take(i - 4),
            decreases w.len() - i,
        {
            assert(w.deep_view()[i as int] == w@[i as int]@);
            sizes.push(col_u64(&w[i]));
            assert(sizes@ =~= fragment_counts(w.deep_view()).take(i - 3));
            i += 1;
        }
        assert(sizes@ =~= fragment_counts(w.deep_view()));
        Ok(BuddyInfo { node, zone, sizes })
    }

    /// The zones of the file given as its lines.
    pub fn parse(lines: &Vec<String>) -> (r: Result<Vec<Self>, MetricError>)
        ensures
            r is Ok <==> (forall|i: int| 0 <= i < lines.len() ==> Self::fits(#[trigger] words(lines@[i]@))),
            r is Ok ==> r->Ok_0.len() == lines.len(),
            r is Ok ==> forall|k: int| 0 <= k < r->Ok_0.len() ==> (#[trigger] r->Ok_0@[k]).read_from(words(lines@[k]@)),
    {
        let mut out: Vec<Self> = Vec::new();
        let mut i: usize = 0;
        while i < lines.len()
            invariant
                i <= lines.len(),
                out.len() == i,
                forall|j: int| 0 <= j < i ==> Self::fits(#[trigger] words(lines@[j]@)),
                forall|k: int| 0 <= k < out.len() ==> (#[trigger] out@[k]).read_from(words(lines@[k]@)),
            decreases lines.len() - i,
        {
            let rec = Self::from_line(lines[i].as_str())?;
            out.push(rec);
            i += 1;
        }
        Ok(out)
    }
}

} // verus!
