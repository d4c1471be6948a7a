//! Unix domain sockets of `/proc/net/unix`.
use vstd::prelude::*;
use crate::columns::{col_hex, col_stripped, col_text, col_u64, hex_or_zero, u64_or_zero};
use crate::error::MetricError;
use crate::text::{chars_of, split_words, string_of, stripped, words};

verus! {

/// One Unix domain socket.
#[derive(Debug, Clone)]
pub struct NetUnix {
    pub kernel_ptr: String,
    pub ref_count: u64,
    pub flags: u64,
    pub ntype: u64,
    pub state: u64,
    pub inode: u64,
    pub path: Option<String>,
}

impl NetUnix {
    /// A line of the file has the columns that a record needs.
    pub open spec fn fits(w: Seq<Seq<char>>) -> bool {
        w.len() >= 7
    }

    /// Each field holds what its column gives.
    pub open spec fn read_from(&self, w: Seq<Seq<char>>) -> bool {
        self.kernel_ptr@ == stripped(w[0], ':')
            && self.ref_count == hex_or_zero(w[1])
            && self.flags == hex_or_zero(w[3])
            && self.ntype == hex_or_zero(w[4])
            && self.state == hex_or_zero(w[5])
            && self.inode == u64_or_zero(w[6])
            && self.path.deep_view() == (if w.len() > 7 { Some(w[7]) } else { None::<Seq<char>> })
    }

    /// The record of a line whose columns are `w`.
    pub fn from_columns(w: &Vec<Vec<char>>) -> (r: Self)
        requires
            Self::fits(w.deep_view()),
        ensures
            r.read_from(w.deep_view()),
    {
        assert(w.deep_view()[0] == w@[0]@);
        assert(w.deep_view()[1] == w@[1]@);
        assert(w.deep_view()[3] == w@[3]@);
        assert(w.deep_view()[4] == w@[4]@);
        assert(w.deep_view()[5] == w@[5]@);
        assert(w.deep_view()[6] == w@[6]@);
        NetUnix {
            kernel_ptr: col_text(&col_stripped(&w[0], ':')),
            ref_count: col_hex(&w[1]),
            flags: col_hex(&w[3]),
            ntype: col_hex(&w[4]),
            state: col_hex(&w[5]),
            inode: col_u64(&w[6]),
            path: if w.len() > 7 { assert(w.deep_view()[7] == w@[7]@); Some(col_text(&w[7])) } else { None },
        }
    }

    /// The record of one line of the file.
    pub fn from_line(line: &str) -> (r: Result<Self, MetricError>)
        ensures
            r is Ok <==> Self::fits(words(line@)),
            r is Ok ==> r->Ok_0.read_from(words(line@)),
    {
        let w = split_words(&chars_of(line));
        if !(w.len() >= 7) {
            return Err(MetricError::InvalidFieldNumberError(string_of(&chars_of("net unix")), w.len(), string_of(&chars_of(line))));
        }
        Ok(Self::from_columns(&w))
    }

    /// The records of the file given as its lines, the first 1 being headers.
    pub fn parse(lines: &Vec<String>) -> (r: Result<Vec<Self>, MetricError>)
        ensures
            r is Ok <==> (forall|i: int| 1 <= i < lines.len() ==> Self::fits(#[trigger] words(lines@[i]@))),
            r is Ok ==> r->Ok_0.len() == (if lines.len() >= 1 { lines.len() - 1 } else { 0 }),
            r is Ok ==> forall|k: int| 0 <= k < r->Ok_0.len() ==> (#[trigger] r->Ok_0@[k]).read_from(words(lines@[k + 1]@)),
    {
        let mut out: Vec<Self> = Vec::new();
        let mut i: usize = 1;
        if lines.len() < 1 {
            return Ok(out);
        }
        while i < lines.len()
            invariant
                1 <= i <= lines.len(),
                out.len() == i - 1,
                forall|j: int| 1 <= j < i ==> Self::fits(#[trigger] words(lines@[j]@)),
                forall|k: int| 0 <= k < out.len() ==> (#[trigger] out@[k]).read_from(words(lines@[k + 1]@)),
            decreases lines.len() - i,
        {
            let rec = Self::from_line(lines[i].as_str())?;
            out.push(rec);
            i += 1;
        }
        Ok(out)
    }
}

} // verus!
