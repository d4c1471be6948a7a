//! Softirq counts per CPU, from `/proc/softirqs`.
use vstd::prelude::*;
use crate::error::MetricError;
use crate::text::{chars_eq, chars_of, parse_u64, split_words, string_of, u64_of, words};

verus! {

/// The counts of a row: its columns after the first, each a `u64`.
pub open spec fn row_counts(w: Seq<Seq<char>>) -> Seq<u64> {
    Seq::new((w.len() - 1) as nat, |i: int| u64_of(w[i + 1])->Some_0)
}

/// Every column of the row after the first is a `u64`.
pub open spec fn row_parses(w: Seq<Seq<char>>) -> bool {
    forall|i: int| 1 <= i < w.len() ==> (#[trigger] u64_of(w[i])) is Some
}

/// A row that begins with `label`.
pub open spec fn labelled(w: Seq<Seq<char>>, label: Seq<char>) -> bool {
    w.len() > 0 && w[0] == label
}

/// The counts of every row labelled `label`, one row after the other.
pub open spec fn irq_counts(lines: Seq<Seq<char>>, label: Seq<char>) -> Seq<u64>
    decreases lines.len(),
{
    if lines.len() == 0 {
        Seq::empty()
    } else if labelled(words(lines.last()), label) {
        irq_counts(lines.drop_last(), label) + row_counts(words(lines.last()))
    } else {
        irq_counts(lines.drop_last(), label)
    }
}

/// The lines after the header line.
pub open spec fn after_header(lines: Seq<Seq<char>>) -> Seq<Seq<char>> {
    if lines.len() == 0 {
        lines
    } else {
        lines.skip(1)
    }
}

/// Every row labelled `label` holds only counts.
pub open spec fn irq_rows_parse(lines: Seq<Seq<char>>, label: Seq<char>) -> bool {
    forall|i: int|
        0 <= i < lines.len() && labelled(#[trigger] words(lines[i]), label) ==> row_parses(words(lines[i]))
}

/// The counts of the rows labelled `label`, the first line being the header.
fn counts_of(lines: &Vec<String>, label: &str) -> (r: Result<Vec<u64>, MetricError>)
    ensures
        r is Ok <==> irq_rows_parse(after_header(lines.deep_view()), label@),
        r is Ok ==> r->Ok_0@ == irq_counts(after_header(lines.deep_view()), label@),
{
    let ghost all = lines.deep_view();
    let key = chars_of(label);
    let mut out: Vec<u64> = Vec::new();
    if lines.len() == 0 {
        return Ok(out);
    }
    assert(after_header(all) == all.skip(1));
    let mut i: usize = 1;
    assert(all.skip(1).take(0) =~= Seq::<Seq<char>>::empty());
    while i < lines.len()
        invariant
            1 <= i <= lines.len(),
            all == lines.deep_view(),
            key@ == label@,
            after_header(all) == all.skip(1),
            irq_rows_parse(all.skip(1).take(i - 1), label@),
            out@ == irq_counts(all.skip(1).take(i - 1), label@),
        decreases lines.len() - i,
    {
        let ghost pre = all.skip(1).take(i - 1);
        let ghost next = all.skip(1).take(i as int);
        assert(next.drop_last() =~= pre);
        assert(next.last() == lines@[i as int]@);
        let w = split_words(&chars_of(lines[i].as_str()));
        let ghost wv = w.deep_view();
        let hit = w.len() > 0 && chars_eq(&w[0], &key);
        if w.len() > 0 {
            assert(wv[0] == w@[0]@);
        }
        if hit {
            let ghost before = out@;
            let mut j: usize = 1;
            while j < w.len()
                invariant
                    1 <= j <= w.len(),
                    1 <= i < lines.len(),
                    all == lines.deep_view(),
                    wv == w.deep_view(),
                    wv == words(lines@[i as int]@),
                    wv.len() > 0 && wv[0] == label@,
                    forall|k: int| 1 <= k < j ==> (#[trigger] u64_of(wv[k])) is Some,
                    out@ == before + row_counts(wv).take(j - 1),
                decreases w.len() - j,
            {
                assert(wv[j as int] == w@[j as int]@);
                match parse_u64(&w[j]) {
                    Some(v) => {
                        out.push(v);
                        assert(out@ =~= before + row_counts(wv).take(j as int));
                    },
                    None => {
                        proof {
                            assert(!row_parses(wv));
                            assert(all.skip(1)[i - 1] == lines@[i as int]@);
                            assert(labelled(words(all.skip(1)[i - 1]), label@));
                        }
                        return Err(MetricError::ParseIntError(string_of(&key), string_of(&w[j])));
                    },
                }
                j += 1;
            }
            assert(row_counts(wv).take(w.len() - 1) =~= row_counts(wv));
        }
        proof {
            assert forall|k: int|
                0 <= k < next.len() && labelled(#[trigger] words(next[k]), label@) implies row_parses(
                words(next[k]),
            ) by {
                if k < next.len() - 1 {
                    assert(next[k] == pre[k]);
                }
            }
        }
        i += 1;
    }
    assert(all.skip(1).take(lines.len() - 1) =~= all.skip(1));
    assert(after_header(all) == all.skip(1));
    Ok(out)
}

/// The number of softirqs of each kind handled by each CPU.
#[derive(Debug, Clone)]
pub struct Softirqs {
    pub hi: Vec<u64>,
    pub timer: Vec<u64>,
    pub net_tx: Vec<u64>,
    pub net_rx: Vec<u64>,
    pub block: Vec<u64>,
    pub irq_poll: Vec<u64>,
    pub tasklet: Vec<u64>,
    pub sched: Vec<u64>,
    pub hr_timer: Vec<u64>,
    pub rcu: Vec<u64>,
}

impl Softirqs {
    /// Each kind holds the counts of the rows labelled with it, the first line being the header.
    pub open spec fn read_from(&self, lines: Seq<Seq<char>>) -> bool {
        self.hi@ == irq_counts(after_header(lines), "HI:"@)
            && self.timer@ == irq_counts(after_header(lines), "TIMER:"@)
            && self.net_tx@ == irq_counts(after_header(lines), "NET_TX:"@)
            && self.net_rx@ == irq_counts(after_header(lines), "NET_RX:"@)
            && self.block@ == irq_counts(after_header(lines), "BLOCK:"@)
            && self.irq_poll@ == irq_counts(after_header(lines), "IRQ_POLL:"@)
            && self.tasklet@ == irq_counts(after_header(lines), "TASKLET:"@)
            && self.sched@ == irq_counts(after_header(lines), "SCHED:"@)
            && self.hr_timer@ == irq_counts(after_header(lines), "HRTIMER:"@)
            && self.rcu@ == irq_counts(after_header(lines), "RCU:"@)
    }

    /// Every labelled row of a known kind holds only counts.
    pub open spec fn readable(lines: Seq<Seq<char>>) -> bool {
        irq_rows_parse(after_header(lines), "HI:"@)
            && irq_rows_parse(after_header(lines), "TIMER:"@)
            && irq_rows_parse(after_header(lines), "NET_TX:"@)
            && irq_rows_parse(after_header(lines), "NET_RX:"@)
            && irq_rows_parse(after_header(lines), "BLOCK:"@)
            && irq_rows_parse(after_header(lines), "IRQ_POLL:"@)
            && irq_rows_parse(after_header(lines), "TASKLET:"@)
            && irq_rows_parse(after_header(lines), "SCHED:"@)
            && irq_rows_parse(after_header(lines), "HRTIMER:"@)
            && irq_rows_parse(after_header(lines), "RCU:"@)
    }

    pub fn new() -> (r: Self)
        ensures
            r.hi@.len() == 0,
            r.timer@.len() == 0,
            r.net_tx@.len() == 0,
            r.net_rx@.len() == 0,
            r.block@.len() == 0,
            r.irq_poll@.len() == 0,
            r.tasklet@.len() == 0,
            r.sched@.len() == 0,
            r.hr_timer@.len() == 0,
            r.rcu@.len() == 0,
    {
        Softirqs {
            hi: Vec::new(),
            timer: Vec::new(),
            net_tx: Vec::new(),
            net_rx: Vec::new(),
            block: Vec::new(),
            irq_poll: Vec::new(),
            tasklet: Vec::new(),
            sched: Vec::new(),
            hr_timer: Vec::new(),
            rcu: Vec::new(),
        }
    }

    /// The counts of the file given as its lines.
    pub fn parse(lines: &Vec<String>) -> (r: Result<Self, MetricError>)
        ensures
            r is Ok <==> Self::readable(lines.deep_view()),
            r is Ok ==> r->Ok_0.read_from(lines.deep_view()),
    {
        let hi = match counts_of(lines, "HI:") {
            Ok(v) => v,
            Err(e) => return Err(e),
        };
        let timer = match counts_of(lines, "TIMER:") {
            Ok(v) => v,
            Err(e) => return Err(e),
        };
        let net_tx = match counts_of(lines, "NET_TX:") {
            Ok(v) => v,
            Err(e) => return Err(e),
        };
        let net_rx = match counts_of(lines, "NET_RX:") {
            Ok(v) => v,
            Err(e) => return Err(e),
        };
        let block = match counts_of(lines, "BLOCK:") {
            Ok(v) => v,
            Err(e) => return Err(e),
        };
        let irq_poll = match counts_of(lines, "IRQ_POLL:") {
            Ok(v) => v,
            Err(e) => return Err(e),
        };
        let tasklet = match counts_of(lines, "TASKLET:") {
            Ok(v) => v,
            Err(e) => return Err(e),
        };
        let sched = match counts_of(lines, "SCHED:") {
            Ok(v) => v,
            Err(e) => return Err(e),
        };
        let hr_timer = match counts_of(lines, "HRTIMER:") {
            Ok(v) => v,
            Err(e) => return Err(e),
        };
        let rcu = match counts_of(lines, "RCU:") {
            Ok(v) => v,
            Err(e) => return Err(e),
        };
        Ok(Softirqs { hi, timer, net_tx, net_rx, block, irq_poll, tasklet, sched, hr_timer, rcu })
    }
}

} // verus!
