//! Socket use per protocol, from `/proc/net/sockstat` and `/proc/net/sockstat6`.
use vstd::prelude::*;
use crate::error::MetricError;
use crate::text::{chars_eq, chars_of, i64_of, parse_i64, pieces, split_trimmed, split_words, string_of, trimmed, words};

verus! {

/// The `isize` that `s` writes (an optional sign, then digits), if it fits.
pub open spec fn isize_of(s: Seq<char>) -> Option<isize> {
    match i64_of(s) {
        Some(v) => if isize::MIN <= v <= isize::MAX {
            Some(v as isize)
        } else {
            None
        },
        None => None,
    }
}

fn parse_isize(s: &Vec<char>) -> (r: Option<isize>)
    ensures
        r == isize_of(s@),
{
    match parse_i64(s) {
        Some(v) => if isize::MIN as i64 <= v && v <= isize::MAX as i64 {
            Some(v as isize)
        } else {
            None
        },
        None => None,
    }
}

/// The names that a protocol line gives a value.
pub open spec fn is_known(name: Seq<char>) -> bool {
    name == "inuse"@ || name == "orphan"@ || name == "tw"@ || name == "alloc"@ || name == "mem"@
        || name == "memory"@
}

/// The value text of the last `name value` pair among the first `n` pairs of `w`.
pub open spec fn pair_value(w: Seq<Seq<char>>, name: Seq<char>, n: int) -> Option<Seq<char>>
    decreases n,
{
    if n <= 0 {
        None
    } else if w[2 * (n - 1)] == name {
        Some(w[2 * (n - 1) + 1])
    } else {
        pair_value(w, name, n - 1)
    }
}

/// The value of `name` among the pairs of `w`: parsed, absent where no pair names it.
pub open spec fn named_value(w: Seq<Seq<char>>, name: Seq<char>) -> Option<isize> {
    match pair_value(w, name, (w.len() / 2) as int) {
        Some(t) => isize_of(t),
        None => None,
    }
}

/// Every pair with a known name holds an `isize`.
pub open spec fn pairs_parse(w: Seq<Seq<char>>) -> bool {
    forall|k: int| 0 <= k < w.len() / 2 && is_known(#[trigger] w[2 * k]) ==> isize_of(w[2 * k + 1]) is Some
}

proof fn lemma_known_distinct()
    ensures
        "inuse"@ != "orphan"@,
        "inuse"@ != "tw"@,
        "inuse"@ != "alloc"@,
        "inuse"@ != "mem"@,
        "inuse"@ != "memory"@,
        "orphan"@ != "tw"@,
        "orphan"@ != "alloc"@,
        "orphan"@ != "mem"@,
        "orphan"@ != "memory"@,
        "tw"@ != "alloc"@,
        "tw"@ != "mem"@,
        "tw"@ != "memory"@,
        "alloc"@ != "mem"@,
        "alloc"@ != "memory"@,
        "mem"@ != "memory"@,
{
    reveal_strlit("inuse");
    reveal_strlit("orphan");
    reveal_strlit("tw");
    reveal_strlit("alloc");
    reveal_strlit("mem");
    reveal_strlit("memory");
    assert("inuse"@.len() == 5 && "orphan"@.len() == 6 && "tw"@.len() == 2);
    assert("alloc"@.len() == 5 && "mem"@.len() == 3 && "memory"@.len() == 6);
    assert("inuse"@[0] != "alloc"@[0]);
    assert("orphan"@[0] != "memory"@[0]);
}

/// The use of one protocol: `PROTO: inuse <n> orphan <n> ...`.
#[derive(Debug, Clone)]
pub struct NetSockStatProtocol {
    pub protocol: String,
    pub inuse: isize,
    pub orphan: Option<isize>,
    pub tw: Option<isize>,
    pub alloc: Option<isize>,
    pub mem: Option<isize>,
    pub memory: Option<isize>,
}

impl NetSockStatProtocol {
    /// The protocol `name` whose values are the pairs of `w`; `inuse` is 0
    /// where no pair gives it.
    pub open spec fn read_from(&self, name: Seq<char>, w: Seq<Seq<char>>) -> bool {
        &&& self.protocol@ == name
        &&& self.inuse == (match named_value(w, "inuse"@) {
            Some(v) => v,
            None => 0,
        })
        &&& self.orphan == named_value(w, "orphan"@)
        &&& self.tw == named_value(w, "tw"@)
        &&& self.alloc == named_value(w, "alloc"@)
        &&& self.mem == named_value(w, "mem"@)
        &&& self.memory == named_value(w, "memory"@)
    }

    pub fn new() -> (r: Self)
        ensures
            r.protocol@.len() == 0,
            r.inuse == 0,
            r.orphan is None && r.tw is None && r.alloc is None && r.mem is None && r.memory is None,
    {
        NetSockStatProtocol {
            protocol: String::new(),
            inuse: 0,
            orphan: None,
            tw: None,
            alloc: None,
            mem: None,
            memory: None,
        }
    }

    /// The protocol `name` from the words `w` after its colon.
    pub fn from_pairs(name: &Vec<char>, w: &Vec<Vec<char>>) -> (r: Result<Self, MetricError>)
        ensures
            r is Ok <==> pairs_parse(w.deep_view()),
            r is Ok ==> r->Ok_0.read_from(name@, w.deep_view()),
    {
        let ghost wv = w.deep_view();
        proof {
            lemma_known_distinct();
        }
        let mut rec = Self::new();
        rec.protocol = string_of(name);
        let n = w.len() / 2;
        let mut k: usize = 0;
        while k < n
            invariant
                n == w.len() / 2,
                wv == w.deep_view(),
                k <= n,
                rec.protocol@ == name@,
                forall|j: int| 0 <= j < k && is_known(#[trigger] wv[2 * j]) ==> isize_of(wv[2 * j + 1]) is Some,
                rec.inuse == (match pair_value(wv, "inuse"@, k as int) {
                    Some(t) => isize_of(t)->Some_0,
                    None => 0,
                }),
                rec.orphan == (match pair_value(wv, "orphan"@, k as int) { Some(t) => isize_of(t), None => None }),
                rec.tw == (match pair_value(wv, "tw"@, k as int) { Some(t) => isize_of(t), None => None }),
                rec.alloc == (match pair_value(wv, "alloc"@, k as int) { Some(t) => isize_of(t), None => None }),
                rec.mem == (match pair_value(wv, "mem"@, k as int) { Some(t) => isize_of(t), None => None }),
                rec.memory == (match pair_value(wv, "memory"@, k as int) { Some(t) => isize_of(t), None => None }),
                forall|key: Seq<char>| #[trigger] is_known(key) ==> match pair_value(wv, key, k as int) {
                    Some(t) => isize_of(t) is Some,
                    None => true,
                },
            decreases n - k,
        {
            proof {
                lemma_known_distinct();
            }
            let key = &w[2 * k];
            let val = &w[2 * k + 1];
            assert(wv[2 * k as int] == key@ && wv[2 * k + 1] == val@);

            let known = chars_eq(key, &chars_of("inuse")) || chars_eq(key, &chars_of("orphan"))
                || chars_eq(key, &chars_of("tw")) || chars_eq(key, &chars_of("alloc"))
                || chars_eq(key, &chars_of("mem")) || chars_eq(key, &chars_of("memory"));
            if known {
                let v = match parse_isize(val) {
                    Some(v) => v,
                    None => {
                        return Err(MetricError::ParseIntError(string_of(key), string_of(val)));
                    },
                };
                if chars_eq(key, &chars_of("inuse")) {
                    rec.inuse = v;
                } else if chars_eq(key, &chars_of("orphan")) {
                    rec.orphan = Some(v);
                } else if chars_eq(key, &chars_of("tw")) {
                    rec.tw = Some(v);
                } else if chars_eq(key, &chars_of("alloc")) {
                    rec.alloc = Some(v);
                } else if chars_eq(key, &chars_of("mem")) {
                    rec.mem = Some(v);
                } else {
                    rec.memory = Some(v);
                }
            }
            k += 1;
        }
        assert(is_known("inuse"@));
        Ok(rec)
    }
}

/// The socket use of a system: sockets in use, then each protocol.
#[derive(Debug, Clone)]
pub struct NetSockStat {
    pub used: Option<isize>,
    pub protocols: Vec<NetSockStatProtocol>,
}

/// The name and the words of a line `name: words`, where the line splits on
/// its colons into exactly two pieces.
pub open spec fn stat_line(line: Seq<char>) -> Option<(Seq<char>, Seq<Seq<char>>)> {
    let p = pieces(trimmed(line), ':');
    if p.len() == 2 {
        Some((p[0], words(p[1])))
    } else {
        None
    }
}

/// The count that a `sockets:` line gives: `used <n>`.
pub open spec fn sockets_used(w: Seq<Seq<char>>) -> Option<isize> {
    if w.len() == 2 && w[0] == "used"@ {
        isize_of(w[1])
    } else {
        None
    }
}

/// The protocol lines among `lines`, in order: name and words.
pub open spec fn protocol_lines(lines: Seq<Seq<char>>) -> Seq<(Seq<char>, Seq<Seq<char>>)>
    decreases lines.len(),
{
    if lines.len() == 0 {
        Seq::empty()
    } else {
        match stat_line(lines.last()) {
            Some(s) => if s.0 != "sockets"@ {
                protocol_lines(lines.drop_last()).push(s)
            } else {
                protocol_lines(lines.drop_last())
            },
            None => protocol_lines(lines.drop_last()),
        }
    }
}

/// What the last `sockets` line among `lines` gives, if there is one.
pub open spec fn last_used(lines: Seq<Seq<char>>) -> Option<isize>
    decreases lines.len(),
{
    if lines.len() == 0 {
        None
    } else {
        match stat_line(lines.last()) {
            Some(s) => if s.0 == "sockets"@ {
                sockets_used(s.1)
            } else {
                last_used(lines.drop_last())
            },
            None => last_used(lines.drop_last()),
        }
    }
}

/// Every protocol line holds parsable values.
pub open spec fn protocols_parse(pl: Seq<(Seq<char>, Seq<Seq<char>>)>) -> bool {
    forall|k: int| 0 <= k < pl.len() ==> pairs_parse(#[trigger] pl[k].1)
}

impl NetSockStat {
    pub fn new() -> (r: Self)
        ensures
            r.used is None,
            r.protocols@.len() == 0,
    {
        NetSockStat { used: None, protocols: Vec::new() }
    }

    /// The statistics of the file given as its lines. Lines that are not
    /// `name: words` are passed over; the last `sockets` line gives `used`;
    /// every other line is a protocol, in order.
    pub fn parse(lines: &Vec<String>) -> (r: Result<Self, MetricError>)
        ensures
            r is Ok <==> protocols_parse(protocol_lines(lines.deep_view())),
            r is Ok ==> r->Ok_0.used == last_used(lines.deep_view()),
            r is Ok ==> r->Ok_0.protocols.len() == protocol_lines(lines.deep_view()).len(),
            r is Ok ==> forall|k: int| 0 <= k < r->Ok_0.protocols.len() ==> (#[trigger] r->Ok_0.protocols@[k]).read_from(
                protocol_lines(lines.deep_view())[k].0,
                protocol_lines(lines.deep_view())[k].1,
            ),
    {
        let ghost all = lines.deep_view();
        let mut out = Self::new();
        let mut i: usize = 0;
        assert(all.take(0) =~= Seq::<Seq<char>>::empty());
        while i < lines.len()
            invariant
                i <= lines.len(),
                all == lines.deep_view(),
                protocols_parse(protocol_lines(all.take(i as int))),
                out.used == last_used(all.take(i as int)),
                out.protocols.len() == protocol_lines(all.take(i as int)).len(),
                forall|k: int| 0 <= k < out.protocols.len() ==> (#[trigger] out.protocols@[k]).read_from(
                    protocol_lines(all.take(i as int))[k].0,
                    protocol_lines(all.take(i as int))[k].1,
                ),
            decreases lines.len() - i,
        {
            let ghost next = all.take(i + 1);
            assert(next.drop_last() =~= all.take(i as int));
            assert(next.last() == lines@[i as int]@);
            let c = chars_of(lines[i].as_str());
            let p = split_trimmed(&c, ':');
            if p.len() == 2 {
                assert(p.deep_view()[0] == p@[0]@ && p.deep_view()[1] == p@[1]@);
                let w = split_words(&p[1]);
                if chars_eq(&p[0], &chars_of("sockets")) {
                    if w.len() == 2 {
                        assert(w.deep_view()[0] == w@[0]@ && w.deep_view()[1] == w@[1]@);
                    }
                    out.used = if w.len() == 2 && chars_eq(&w[0], &chars_of("used")) {
                        parse_isize(&w[1])
                    } else {
                        None
                    };
                } else {
                    let rec = match NetSockStatProtocol::from_pairs(&p[0], &w) {
                        Ok(r) => r,
                        Err(e) => {
                            proof {
                                lemma_protocols_prefix(all, i + 1);
                                let pl = protocol_lines(next);
                                assert(pl[pl.len() - 1].1 == w.deep_view());
                            }
                            return Err(e);
                        },
                    };
                    out.protocols.push(rec);
                }
            }
            i += 1;
        }
        assert(all.take(lines.len() as int) =~= all);
        Ok(out)
    }
}

/// Protocol lines of a prefix stay protocol lines of the whole, at the same places.
proof fn lemma_protocols_prefix(lines: Seq<Seq<char>>, n: int)
    requires
        0 <= n <= lines.len(),
    ensures
        protocol_lines(lines.take(n)).len() <= protocol_lines(lines).len(),
        forall|k: int| 0 <= k < protocol_lines(lines.take(n)).len() ==> #[trigger] protocol_lines(lines.take(n))[k]
            == protocol_lines(lines)[k],
    decreases lines.len() - n,
{
    if n < lines.len() {
        lemma_protocols_prefix(lines, n + 1);
        assert(lines.take(n + 1).drop_last() =~= lines.take(n));
        let a = protocol_lines(lines.take(n));
        let b = protocol_lines(lines.take(n + 1));
        assert(b == a || b == a.push(stat_line(lines.take(n + 1).last())->Some_0));
        assert forall|k: int| 0 <= k < a.len() implies #[trigger] a[k] == protocol_lines(lines)[k] by {
            assert(a[k] == b[k]);
        }
    } else {
        assert(lines.take(n) =~= lines);
    }
}

} // verus!
