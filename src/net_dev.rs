//! Network device counters of `/proc/net/dev`.
use vstd::prelude::*;
use crate::columns::{col_stripped, col_text, col_u64, u64_or_zero};
use crate::error::MetricError;
use crate::text::{chars_of, split_words, string_of, stripped, words};

verus! {

/// The receive and transmit counters of one network device.
#[derive(Debug, Clone)]
pub struct NetDev {
    pub name: String,
    pub rx_bytes: u64,
    pub rx_packets: u64,
    pub rx_errors: u64,
    pub rx_dropped: u64,
    pub rx_fifo: u64,
    pub rx_frame: u64,
    pub rx_compressed: u64,
    pub rx_multicast: u64,
    pub tx_bytes: u64,
    pub tx_packets: u64,
    pub tx_errors: u64,
    pub tx_dropped: u64,
    pub tx_fifo: u64,
    pub tx_collisions: u64,
    pub tx_carrier: u64,
    pub tx_compressed: u64,
}

impl NetDev {
    /// A line of the file has the columns that a record needs.
    pub open spec fn fits(w: Seq<Seq<char>>) -> bool {
        w.len() == 17
    }

    /// Each field holds what its column gives.
    pub open spec fn read_from(&self, w: Seq<Seq<char>>) -> bool {
        self.name@ == stripped(w[0], ':')
            && self.rx_bytes == u64_or_zero(w[1])
            && self.rx_packets == u64_or_zero(w[2])
            && self.rx_errors == u64_or_zero(w[3])
            && self.rx_dropped == u64_or_zero(w[4])
            && self.rx_fifo == u64_or_zero(w[5])
            && self.rx_frame == u64_or_zero(w[6])
            && self.rx_compressed == u64_or_zero(w[7])
            && self.rx_multicast == u64_or_zero(w[8])
            && self.tx_bytes == u64_or_zero(w[9])
            && self.tx_packets == u64_or_zero(w[10])
            && self.tx_errors == u64_or_zero(w[11])
            && self.tx_dropped == u64_or_zero(w[12])
            && self.tx_fifo == u64_or_zero(w[13])
            && self.tx_collisions == u64_or_zero(w[14])
            && self.tx_carrier == u64_or_zero(w[15])
            && self.tx_compressed == u64_or_zero(w[16])
    }

    /// The record of a line whose columns are `w`.
    pub fn from_columns(w: &Vec<Vec<char>>) -> (r: Self)
        requires
            Self::fits(w.deep_view()),
        ensures
            r.read_from(w.deep_view()),
    {
        assert(w.deep_view()[0] == w@[0]@);
        assert(w.deep_view()[1] == w@[1]@);
        assert(w.deep_view()[2] == w@[2]@);
        assert(w.deep_view()[3] == w@[3]@);
        assert(w.deep_view()[4] == w@[4]@);
        assert(w.deep_view()[5] == w@[5]@);
        assert(w.deep_view()[6] == w@[6]@);
        assert(w.deep_view()[7] == w@[7]@);
        assert(w.deep_view()[8] == w@[8]@);
        assert(w.deep_view()[9] == w@[9]@);
        assert(w.deep_view()[10] == w@[10]@);
        assert(w.deep_view()[11] == w@[11]@);
        assert(w.deep_view()[12] == w@[12]@);
        assert(w.deep_view()[13] == w@[13]@);
        assert(w.deep_view()[14] == w@[14]@);
        assert(w.deep_view()[15] == w@[15]@);
        assert(w.deep_view()[16] == w@[16]@);
        NetDev {
            name: col_text(&col_stripped(&w[0], ':')),
            rx_bytes: col_u64(&w[1]),
            rx_packets: col_u64(&w[2]),
            rx_errors: col_u64(&w[3]),
            rx_dropped: col_u64(&w[4]),
            rx_fifo: col_u64(&w[5]),
            rx_frame: col_u64(&w[6]),
            rx_compressed: col_u64(&w[7]),
            rx_multicast: col_u64(&w[8]),
            tx_bytes: col_u64(&w[9]),
            tx_packets: col_u64(&w[10]),
            tx_errors: col_u64(&w[11]),
            tx_dropped: col_u64(&w[12]),
            tx_fifo: col_u64(&w[13]),
            tx_collisions: col_u64(&w[14]),
            tx_carrier: col_u64(&w[15]),
            tx_compressed: col_u64(&w[16]),
        }
    }

    /// The record of one line of the file.
    pub fn from_line(line: &str) -> (r: Result<Self, MetricError>)
        ensures
            r is Ok <==> Self::fits(words(line@)),
            r is Ok ==> r->Ok_0.read_from(words(line@)),
    {
        let w = split_words(&chars_of(line));
        if !(w.len() == 17) {
            return Err(MetricError::InvalidFieldNumberError(string_of(&chars_of("network")), w.len(), string_of(&chars_of(line))));
        }
        Ok(Self::from_columns(&w))
    }

    /// The records of the file given as its lines, the first 2 being headers.
    pub fn parse(lines: &Vec<String>) -> (r: Result<Vec<Self>, MetricError>)
        ensures
            r is Ok <==> (forall|i: int| 2 <= i < lines.len() ==> Self::fits(#[trigger] words(lines@[i]@))),
            r is Ok ==> r->Ok_0.len() == (if lines.len() >= 2 { lines.len() - 2 } else { 0 }),
            r is Ok ==> forall|k: int| 0 <= k < r->Ok_0.len() ==> (#[trigger] r->Ok_0@[k]).read_from(words(lines@[k + 2]@)),
    {
        let mut out: Vec<Self> = Vec::new();
        let mut i: usize = 2;
        if lines.len() < 2 {
            return Ok(out);
        }
        while i < lines.len()
            invariant
                2 <= i <= lines.len(),
                out.len() == i - 2,
                forall|j: int| 2 <= j < i ==> Self::fits(#[trigger] words(lines@[j]@)),
                forall|k: int| 0 <= k < out.len() ==> (#[trigger] out@[k]).read_from(words(lines@[k + 2]@)),
            decreases lines.len() - i,
        {
            let rec = Self::from_line(lines[i].as_str())?;
            out.push(rec);
            i += 1;
        }
        Ok(out)
    }
}

} // verus!
