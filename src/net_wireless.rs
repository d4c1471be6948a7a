//! Wireless interfaces of `/proc/net/wireless`.
use vstd::prelude::*;
use crate::columns::{col_hex, col_i64, col_stripped, col_stripped_end, col_text, hex_or_zero, i64_or_zero};
use crate::error::MetricError;
use crate::text::{chars_of, split_words, string_of, stripped, stripped_end, words};

verus! {

/// The link quality and discard counters of a wireless interface.
#[derive(Debug, Clone)]
pub struct Wireless {
    pub name: String,
    pub status: u64,
    pub quality_link: i64,
    pub quality_level: i64,
    pub quality_noise: i64,
    pub discarded_nwid: i64,
    pub discarded_crypt: i64,
    pub discarded_frag: i64,
    pub discarded_retry: i64,
    pub discarded_misc: i64,
    pub missed_beacon: i64,
}

impl Wireless {
    /// A line of the file has the columns that a record needs.
    pub open spec fn fits(w: Seq<Seq<char>>) -> bool {
        w.len() >= 11
    }

    /// Each field holds what its column gives.
    pub open spec fn read_from(&self, w: Seq<Seq<char>>) -> bool {
        self.name@ == stripped(w[0], ':')
            && self.status == hex_or_zero(w[1])
            && self.quality_link == i64_or_zero(stripped_end(w[2], '.'))
            && self.quality_level == i64_or_zero(stripped_end(w[3], '.'))
            && self.quality_noise == i64_or_zero(stripped_end(w[4], '.'))
            && self.discarded_nwid == i64_or_zero(w[5])
            && self.discarded_crypt == i64_or_zero(w[6])
            && self.discarded_frag == i64_or_zero(w[7])
            && self.discarded_retry == i64_or_zero(w[8])
            && self.discarded_misc == i64_or_zero(w[9])
            && self.missed_beacon == i64_or_zero(w[10])
    }

    /// The record of a line whose columns are `w`.
    pub fn from_columns(w: &Vec<Vec<char>>) -> (r: Self)
        requires
            Self::fits(w.deep_view()),
        ensures
            r.read_from(w.deep_view()),
    {
        assert(w.deep_view()[0] == w@[0]@);
        assert(w.deep_view()[1] == w@[1]@);
        assert(w.deep_view()[2] == w@[2]@);
        assert(w.deep_view()[3] == w@[3]@);
        assert(w.deep_view()[4] == w@[4]@);
        assert(w.deep_view()[5] == w@[5]@);
        assert(w.deep_view()[6] == w@[6]@);
        assert(w.deep_view()[7] == w@[7]@);
        assert(w.deep_view()[8] == w@[8]@);
        assert(w.deep_view()[9] == w@[9]@);
        assert(w.deep_view()[10] == w@[10]@);
        Wireless {
            name: col_text(&col_stripped(&w[0], ':')),
            status: col_hex(&w[1]),
            quality_link: col_i64(&col_stripped_end(&w[2], '.')),
            quality_level: col_i64(&col_stripped_end(&w[3], '.')),
            quality_noise: col_i64(&col_stripped_end(&w[4], '.')),
            discarded_nwid: col_i64(&w[5]),
            discarded_crypt: col_i64(&w[6]),
            discarded_frag: col_i64(&w[7]),
            discarded_retry: col_i64(&w[8]),
            discarded_misc: col_i64(&w[9]),
            missed_beacon: col_i64(&w[10]),
        }
    }

    /// The record of one line of the file.
    pub fn from_line(line: &str) -> (r: Result<Self, MetricError>)
        ensures
            r is Ok <==> Self::fits(words(line@)),
            r is Ok ==> r->Ok_0.read_from(words(line@)),
    {
        let w = split_words(&chars_of(line));
        if !(w.len() >= 11) {
            return Err(MetricError::InvalidFieldNumberError(string_of(&chars_of("wireless")), w.len(), string_of(&chars_of(line))));
        }
        Ok(Self::from_columns(&w))
    }

    /// The records of the file given as its lines, the first 2 being headers.
    pub fn parse(lines: &Vec<String>) -> (r: Result<Vec<Self>, MetricError>)
        ensures
            r is Ok <==> (forall|i: int| 2 <= i < lines.len() ==> Self::fits(#[trigger] words(lines@[i]@))),
            r is Ok ==> r->Ok_0.len() == (if lines.len() >= 2 { lines.len() - 2 } else { 0 }),
            r is Ok ==> forall|k: int| 0 <= k < r->Ok_0.len() ==> (#[trigger] r->Ok_0@[k]).read_from(words(lines@[k + 2]@)),
    {
        let mut out: Vec<Self> = Vec::new();
        let mut i: usize = 2;
        if lines.len() < 2 {
            return Ok(out);
        }
        while i < lines.len()
            invariant
                2 <= i <= lines.len(),
                out.len() == i - 2,
                forall|j: int| 2 <= j < i ==> Self::fits(#[trigger] words(lines@[j]@)),
                forall|k: int| 0 <= k < out.len() ==> (#[trigger] out@[k]).read_from(words(lines@[k + 2]@)),
            decreases lines.len() - i,
        {
            let rec = Self::from_line(lines[i].as_str())?;
            out.push(rec);
            i += 1;
        }
        Ok(out)
    }
}

} // verus!
