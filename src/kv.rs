//! Files of one `name<sep>value` record per line, such as `/proc/meminfo`
//! (`MemTotal: 16 kB`) or `/proc/<pid>/net/snmp6` (`Ip6InReceives 92166`).
use vstd::prelude::*;
use crate::error::MetricError;
use crate::text::{chars_eq, chars_of, pieces, split_trimmed, string_of, trim, trimmed};

verus! {

/// A record's name and its value text.
pub type PairView = (Seq<char>, Seq<char>);

/// The record of one line: the line trimmed and split on `sep` must give
/// exactly two pieces, the name and the value, each read trimmed.
pub open spec fn pair_of(line: Seq<char>, sep: char) -> Option<PairView> {
    let p = pieces(trimmed(line), sep);
    if p.len() == 2 {
        Some((trimmed(p[0]), trimmed(p[1])))
    } else {
        None
    }
}

/// The records of all lines, in order; `None` where a line is not a record.
pub open spec fn pairs_of(lines: Seq<Seq<char>>, sep: char) -> Option<Seq<PairView>>
    decreases lines.len(),
{
    if lines.len() == 0 {
        Some(Seq::empty())
    } else {
        match pair_of(lines[0], sep) {
            None => None,
            Some(p) => match pairs_of(lines.skip(1), sep) {
                None => None,
                Some(t) => Some(seq![p] + t),
            },
        }
    }
}

/// The value text of the last record named `key`.
pub open spec fn pair_text(pairs: Seq<PairView>, key: Seq<char>) -> Option<Seq<char>>
    decreases pairs.len(),
{
    if pairs.len() == 0 {
        None
    } else if pairs.last().0 == key {
        Some(pairs.last().1)
    } else {
        pair_text(pairs.drop_last(), key)
    }
}

/// The record of one line, split on `sep`.
pub fn split_pair(line: &Vec<char>, sep: char) -> (r: Option<(Vec<char>, Vec<char>)>)
    ensures
        match pair_of(line@, sep) {
            Some(p) => r is Some && r->Some_0.deep_view() == p,
            None => r is None,
        },
{
    let p = split_trimmed(line, sep);
    if p.len() != 2 {
        return None;
    }
    assert(p.deep_view()[0] == p@[0]@ && p.deep_view()[1] == p@[1]@);
    let name = trim(&p[0]);
    let value = trim(&p[1]);
    Some((name, value))
}

/// The records of a file given as its lines; `what` names the file in errors.
pub fn parse_pairs(lines: &Vec<String>, sep: char, what: &str) -> (r: Result<
    Vec<(Vec<char>, Vec<char>)>,
    MetricError,
>)
    ensures
        match pairs_of(lines.deep_view(), sep) {
            Some(ps) => r is Ok && r->Ok_0.deep_view() == ps,
            None => r is Err && r->Err_0 is InvalidFieldNumberError,
        },
{
    let ghost all = lines.deep_view();
    let mut out: Vec<(Vec<char>, Vec<char>)> = Vec::new();
    let mut i: usize = 0;
    assert(all.skip(0) =~= all);
    proof {
        assert(out.deep_view() =~= Seq::<PairView>::empty());
        match pairs_of(all, sep) {
            Some(t) => {
                assert(out.deep_view() + t =~= t);
            },
            None => {},
        }
    }
    while i < lines.len()
        invariant
            all == lines.deep_view(),
            i <= lines.len(),
            pairs_of(all, sep) == match pairs_of(all.skip(i as int), sep) {
                Some(t) => Some(out.deep_view() + t),
                None => None::<Seq<PairView>>,
            },
        decreases lines.len() - i,
    {
        let ghost rest = all.skip(i as int);
        let line = chars_of(lines[i].as_str());
        assert(rest[0] == line@);
        assert(rest.skip(1) =~= all.skip(i + 1));
        match split_pair(&line, sep) {
            None => {
                let n = split_trimmed(&line, sep).len();
                return Err(
                    MetricError::InvalidFieldNumberError(string_of(&chars_of(what)), n, lines[i].clone()),
                );
            },
            Some(p) => {
                let ghost before = out.deep_view();
                let ghost pv = p.deep_view();
                out.push(p);
                proof {
                    assert(out.deep_view() =~= before.push(pv));
                    match pairs_of(all.skip(i + 1), sep) {
                        Some(t) => {
                            assert(before + (seq![pv] + t) =~= out.deep_view() + t);
                        },
                        None => {},
                    }
                }
            },
        }
        i += 1;
    }
    proof {
        assert(all.skip(i as int).len() == 0);
        assert(out.deep_view() + Seq::<PairView>::empty() =~= out.deep_view());
    }
    Ok(out)
}

/// The value text of the last record named `key`.
pub fn find_pair(pairs: &Vec<(Vec<char>, Vec<char>)>, key: &str) -> (r: Option<Vec<char>>)
    ensures
        match pair_text(pairs.deep_view(), key@) {
            Some(t) => r is Some && r->Some_0@ == t,
            None => r is None,
        },
{
    let k = chars_of(key);
    let ghost all = pairs.deep_view();
    let mut i: usize = pairs.len();
    assert(all.take(all.len() as int) =~= all);
    while i > 0
        invariant
            i <= pairs.len() == all.len(),
            all == pairs.deep_view(),
            k@ == key@,
            pair_text(all, key@) == pair_text(all.take(i as int), key@),
        decreases i,
    {
        let ghost prefix = all.take(i as int);
        assert(prefix.drop_last() =~= all.take(i - 1));
        assert(prefix.last() == all[i - 1]);
        assert(all[i - 1].0 == pairs@[i - 1].0@ && all[i - 1].1 == pairs@[i - 1].1@);
        if chars_eq(&pairs[i - 1].0, &k) {
            let v = pairs[i - 1].1.clone();
            return Some(v);
        }
        i -= 1;
    }
    None
}

} // verus!
