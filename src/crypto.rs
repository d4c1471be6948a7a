//! Cryptographic algorithms of `/proc/crypto`: one block of `key : value`
//! lines per algorithm, each block opened by its `name` line.
use vstd::prelude::*;
use crate::error::MetricError;
use crate::kv::{find_pair, pair_text, PairView};
use crate::text::{chars_eq, chars_of, i64_of, parse_i64, parse_u64, pieces, split_trimmed, string_of, trim, trimmed, u64_of};

verus! {

/// The entry of a line: its text before the first colon and after it, both
/// trimmed; none where the line holds fewer than two pieces.
pub open spec fn crypto_entry(line: Seq<char>) -> Option<PairView> {
    let p = pieces(trimmed(line), ':');
    if p.len() >= 2 {
        Some((trimmed(p[0]), trimmed(p[1])))
    } else {
        None
    }
}

/// The keys that set a field of the current algorithm.
pub open spec fn sets_field(key: Seq<char>) -> bool {
    key == "async"@
        || key == "blocksize"@
        || key == "chunksize"@
        || key == "digestsize"@
        || key == "driver"@
        || key == "geniv"@
        || key == "internal"@
        || key == "ivsize"@
        || key == "maxauthsize"@
        || key == "max keysize"@
        || key == "min keysize"@
        || key == "module"@
        || key == "priority"@
        || key == "refcnt"@
        || key == "seedsize"@
        || key == "statesize"@
        || key == "selftest"@
        || key == "type"@
        || key == "walksize"@
}

/// The entries of `lines` grouped per algorithm: a `name` entry opens a
/// block, a field entry joins the open one, other entries are passed over.
/// `None` where a field entry comes before any `name`.
pub open spec fn crypto_blocks(lines: Seq<Seq<char>>) -> Option<Seq<Seq<PairView>>>
    decreases lines.len(),
{
    if lines.len() == 0 {
        Some(Seq::empty())
    } else {
        match crypto_blocks(lines.drop_last()) {
            None => None,
            Some(bs) => match crypto_entry(lines.last()) {
                None => Some(bs),
                Some(e) => if e.0 == "name"@ {
                    Some(bs.push(seq![e]))
                } else if sets_field(e.0) {
                    if bs.len() == 0 {
                        None
                    } else {
                        Some(bs.update(bs.len() - 1, bs.last().push(e)))
                    }
                } else {
                    Some(bs)
                },
            },
        }
    }
}

pub open spec fn text_or_empty(t: Option<Seq<char>>) -> Seq<char> {
    match t {
        Some(s) => s,
        None => Seq::empty(),
    }
}

pub open spec fn u64_entry_ok(t: Option<Seq<char>>) -> bool {
    match t {
        Some(s) => u64_of(s) is Some,
        None => true,
    }
}

pub open spec fn u64_entry(t: Option<Seq<char>>) -> Option<u64> {
    match t {
        Some(s) => u64_of(s),
        None => None,
    }
}

pub open spec fn i64_entry_ok(t: Option<Seq<char>>) -> bool {
    match t {
        Some(s) => i64_of(s) is Some,
        None => true,
    }
}

pub open spec fn i64_entry(t: Option<Seq<char>>) -> Option<i64> {
    match t {
        Some(s) => i64_of(s),
        None => None,
    }
}

fn entry_u64(block: &Vec<(Vec<char>, Vec<char>)>, key: &str) -> (r: Result<Option<u64>, MetricError>)
    ensures
        r is Ok <==> u64_entry_ok(pair_text(block.deep_view(), key@)),
        r is Ok ==> r->Ok_0 == u64_entry(pair_text(block.deep_view(), key@)),
{
    match find_pair(block, key) {
        None => Ok(None),
        Some(t) => match parse_u64(&t) {
            Some(v) => Ok(Some(v)),
            None => Err(MetricError::ParseIntError(string_of(&chars_of(key)), string_of(&t))),
        },
    }
}

fn entry_i64(block: &Vec<(Vec<char>, Vec<char>)>, key: &str) -> (r: Result<Option<i64>, MetricError>)
    ensures
        r is Ok <==> i64_entry_ok(pair_text(block.deep_view(), key@)),
        r is Ok ==> r->Ok_0 == i64_entry(pair_text(block.deep_view(), key@)),
{
    match find_pair(block, key) {
        None => Ok(None),
        Some(t) => match parse_i64(&t) {
            Some(v) => Ok(Some(v)),
            None => Err(MetricError::ParseIntError(string_of(&chars_of(key)), string_of(&t))),
        },
    }
}

fn entry_text(block: &Vec<(Vec<char>, Vec<char>)>, key: &str) -> (r: String)
    ensures
        r@ == text_or_empty(pair_text(block.deep_view(), key@)),
{
    match find_pair(block, key) {
        None => String::new(),
        Some(t) => string_of(&t),
    }
}

/// One algorithm of the kernel's crypto API.
#[derive(Debug, Clone)]
pub struct Crypto {
    pub alignmask: Option<u64>,
    pub cryptoasync: bool,
    pub blocksize: Option<u64>,
    pub chunksize: Option<u64>,
    pub ctzsize: Option<u64>,
    pub digestsize: Option<u64>,
    pub driver: String,
    pub geniv: String,
    pub internal: String,
    pub ivsize: Option<u64>,
    pub max_authsize: Option<u64>,
    pub max_keysize: Option<u64>,
    pub min_keysize: Option<u64>,
    pub module: String,
    pub name: String,
    pub priority: Option<i64>,
    pub refcnt: Option<i64>,
    pub seedsize: Option<u64>,
    pub statesize: Option<u64>,
    pub selftest: String,
    pub cryptotype: String,
    pub walksize: Option<u64>,
}

impl Crypto {
    /// Each field holds the last value its key has in the block; `name` is that of the opening entry.
    pub open spec fn read_from(&self, block: Seq<PairView>) -> bool {
        self.alignmask is None
            && self.cryptoasync == (pair_text(block, "async"@) == Some("yes"@))
            && self.blocksize == u64_entry(pair_text(block, "blocksize"@))
            && self.chunksize == u64_entry(pair_text(block, "chunksize"@))
            && self.ctzsize is None
            && self.digestsize == u64_entry(pair_text(block, "digestsize"@))
            && self.driver@ == text_or_empty(pair_text(block, "driver"@))
            && self.geniv@ == text_or_empty(pair_text(block, "geniv"@))
            && self.internal@ == text_or_empty(pair_text(block, "internal"@))
            && self.ivsize == u64_entry(pair_text(block, "ivsize"@))
            && self.max_authsize == u64_entry(pair_text(block, "maxauthsize"@))
            && self.max_keysize == u64_entry(pair_text(block, "max keysize"@))
            && self.min_keysize == u64_entry(pair_text(block, "min keysize"@))
            && self.module@ == text_or_empty(pair_text(block, "module"@))
            && self.name@ == block[0].1
            && self.priority == i64_entry(pair_text(block, "priority"@))
            && self.refcnt == i64_entry(pair_text(block, "refcnt"@))
            && self.seedsize == u64_entry(pair_text(block, "seedsize"@))
            && self.statesize == u64_entry(pair_text(block, "statesize"@))
            && self.selftest@ == text_or_empty(pair_text(block, "selftest"@))
            && self.cryptotype@ == text_or_empty(pair_text(block, "type"@))
            && self.walksize == u64_entry(pair_text(block, "walksize"@))
    }

    /// Every numeric value of the block parses.
    pub open spec fn readable(block: Seq<PairView>) -> bool {
        u64_entry_ok(pair_text(block, "blocksize"@))
            && u64_entry_ok(pair_text(block, "chunksize"@))
            && u64_entry_ok(pair_text(block, "digestsize"@))
            && u64_entry_ok(pair_text(block, "ivsize"@))
            && u64_entry_ok(pair_text(block, "maxauthsize"@))
            && u64_entry_ok(pair_text(block, "max keysize"@))
            && u64_entry_ok(pair_text(block, "min keysize"@))
            && i64_entry_ok(pair_text(block, "priority"@))
            && i64_entry_ok(pair_text(block, "refcnt"@))
            && u64_entry_ok(pair_text(block, "seedsize"@))
            && u64_entry_ok(pair_text(block, "statesize"@))
            && u64_entry_ok(pair_text(block, "walksize"@))
    }

    pub fn new() -> (r: Self)
        ensures
            r.name@.len() == 0,
            !r.cryptoasync,
    {
        Crypto {
            alignmask: None,
            cryptoasync: false,
            blocksize: None,
            chunksize: None,
            ctzsize: None,
            digestsize: None,
            driver: String::new(),
            geniv: String::new(),
            internal: String::new(),
            ivsize: None,
            max_authsize: None,
            max_keysize: None,
            min_keysize: None,
            module: String::new(),
            name: String::new(),
            priority: None,
            refcnt: None,
            seedsize: None,
            statesize: None,
            selftest: String::new(),
            cryptotype: String::new(),
            walksize: None,
        }
    }

    /// The algorithm of one block, opened by its `name` entry.
    pub fn from_block(block: &Vec<(Vec<char>, Vec<char>)>) -> (r: Result<Self, MetricError>)
        requires
            block.len() > 0,
        ensures
            r is Ok <==> Self::readable(block.deep_view()),
            r is Ok ==> r->Ok_0.read_from(block.deep_view()),
    {
        assert(block.deep_view()[0].1 == block@[0].1@);
        let name = string_of(&block[0].1);
        let cryptoasync = match find_pair(block, "async") {
            Some(t) => chars_eq(&t, &chars_of("yes")),
            None => false,
        };
        let blocksize = match entry_u64(block, "blocksize") {
            Ok(v) => v,
            Err(e) => return Err(e),
        };
        let chunksize = match entry_u64(block, "chunksize") {
            Ok(v) => v,
            Err(e) => return Err(e),
        };
        let digestsize = match entry_u64(block, "digestsize") {
            Ok(v) => v,
            Err(e) => return Err(e),
        };
        let ivsize = match entry_u64(block, "ivsize") {
            Ok(v) => v,
            Err(e) => return Err(e),
        };
        let max_authsize = match entry_u64(block, "maxauthsize") {
            Ok(v) => v,
            Err(e) => return Err(e),
        };
        let max_keysize = match entry_u64(block, "max keysize") {
            Ok(v) => v,
            Err(e) => return Err(e),
        };
        let min_keysize = match entry_u64(block, "min keysize") {
            Ok(v) => v,
            Err(e) => return Err(e),
        };
        let priority = match entry_i64(block, "priority") {
            Ok(v) => v,
            Err(e) => return Err(e),
        };
        let refcnt = match entry_i64(block, "refcnt") {
            Ok(v) => v,
            Err(e) => return Err(e),
        };
        let seedsize = match entry_u64(block, "seedsize") {
            Ok(v) => v,
            Err(e) => return Err(e),
        };
        let statesize = match entry_u64(block, "statesize") {
            Ok(v) => v,
            Err(e) => return Err(e),
        };
        let walksize = match entry_u64(block, "walksize") {
            Ok(v) => v,
            Err(e) => return Err(e),
        };
        Ok(Crypto {
            alignmask: None,
            cryptoasync,
            blocksize,
            chunksize,
            ctzsize: None,
            digestsize,
            driver: entry_text(block, "driver"),
            geniv: entry_text(block, "geniv"),
            internal: entry_text(block, "internal"),
            ivsize,
            max_authsize,
            max_keysize,
            min_keysize,
            module: entry_text(block, "module"),
            name,
            priority,
            refcnt,
            seedsize,
            statesize,
            selftest: entry_text(block, "selftest"),
            cryptotype: entry_text(block, "type"),
            walksize,
        })
    }

    /// The algorithms of the file given as its lines, in order.
    pub fn parse(lines: &Vec<String>) -> (r: Result<Vec<Self>, MetricError>)
        ensures
            r is Ok <==> (crypto_blocks(lines.deep_view()) is Some && forall|k: int|
                0 <= k < crypto_blocks(lines.deep_view())->Some_0.len() ==> Self::readable(
                    #[trigger] crypto_blocks(lines.deep_view())->Some_0[k],
                )),
            r is Ok ==> r->Ok_0.len() == crypto_blocks(lines.deep_view())->Some_0.len(),
            r is Ok ==> forall|k: int| 0 <= k < r->Ok_0.len() ==> (#[trigger] r->Ok_0@[k]).read_from(
                crypto_blocks(lines.deep_view())->Some_0[k],
            ),
    {
        let blocks = group_blocks(lines)?;
        let ghost bs = crypto_blocks(lines.deep_view())->Some_0;
        let mut out: Vec<Self> = Vec::new();
        let mut k: usize = 0;
        while k < blocks.len()
            invariant
                k <= blocks.len() == bs.len(),
                blocks.deep_view() == bs,
                crypto_blocks(lines.deep_view()) == Some(bs),
                forall|j: int| 0 <= j < bs.len() ==> (#[trigger] bs[j]).len() > 0,
                forall|j: int| 0 <= j < k ==> Self::readable(#[trigger] bs[j]),
                out.len() == k,
                forall|j: int| 0 <= j < k ==> (#[trigger] out@[j]).read_from(bs[j]),
            decreases blocks.len() - k,
        {
            assert(bs[k as int] == blocks@[k as int].deep_view());
            let rec = match Self::from_block(&blocks[k]) {
                Ok(r) => r,
                Err(e) => {
                    assert(!Self::readable(crypto_blocks(lines.deep_view())->Some_0[k as int]));
                    return Err(e);
                },
            };
            out.push(rec);
            k += 1;
        }
        Ok(out)
    }
}

/// The blocks of `lines`, each opened by its `name` entry.
fn group_blocks(lines: &Vec<String>) -> (r: Result<Vec<Vec<(Vec<char>, Vec<char>)>>, MetricError>)
    ensures
        r is Ok <==> crypto_blocks(lines.deep_view()) is Some,
        r is Ok ==> r->Ok_0.deep_view() == crypto_blocks(lines.deep_view())->Some_0,
        r is Ok ==> forall|j: int| 0 <= j < r->Ok_0.len() ==> (#[trigger] r->Ok_0@[j]).len() > 0,
{
    let ghost all = lines.deep_view();
    let mut out: Vec<Vec<(Vec<char>, Vec<char>)>> = Vec::new();
    let mut i: usize = 0;
    assert(all.take(0) =~= Seq::<Seq<char>>::empty());
    while i < lines.len()
        invariant
            i <= lines.len(),
            all == lines.deep_view(),
            crypto_blocks(all.take(i as int)) == Some(out.deep_view()),
            forall|j: int| 0 <= j < out.len() ==> (#[trigger] out@[j]).len() > 0,
        decreases lines.len() - i,
    {
        let ghost next = all.take(i + 1);
        assert(next.drop_last() =~= all.take(i as int));
        assert(next.last() == lines@[i as int]@);
        let c = chars_of(lines[i].as_str());
        let p = split_trimmed(&c, ':');
        if p.len() >= 2 {
            assert(p.deep_view()[0] == p@[0]@ && p.deep_view()[1] == p@[1]@);
            let key = trim(&p[0]);
            let value = trim(&p[1]);
            assert(key.deep_view() =~= key@);
            assert(value.deep_view() =~= value@);
            let ghost e = (key@, value@);
            let ghost before = out.deep_view();
            if chars_eq(&key, &chars_of("name")) {
                let mut block: Vec<(Vec<char>, Vec<char>)> = Vec::new();
                block.push((key, value));
                assert(block.deep_view() =~= seq![e]);
                out.push(block);
                assert(out.deep_view() =~= before.push(seq![e]));
            } else if is_field_key(&key) {
                if out.len() == 0 {
                    proof {
                        lemma_blocks_none_stays(all, i + 1);
                    }
                    return Err(
                        MetricError::InvalidFieldNumberError(
                            string_of(&chars_of("crypto")),
                            0,
                            lines[i].clone(),
                        ),
                    );
                }
                let last = out.len() - 1;
                let mut block = out.pop().unwrap();
                let ghost bv = block.deep_view();
                assert(bv == before[last as int]);
                block.push((key, value));
                assert(block.deep_view() =~= bv.push(e));
                out.push(block);
                assert(out.deep_view() =~= before.update(last as int, bv.push(e)));
            }
        }
        i += 1;
    }
    assert(all.take(lines.len() as int) =~= all);
    Ok(out)
}

fn is_field_key(key: &Vec<char>) -> (r: bool)
    ensures
        r == sets_field(key@),
{
    chars_eq(key, &chars_of("async"))
        || chars_eq(key, &chars_of("blocksize"))
        || chars_eq(key, &chars_of("chunksize"))
        || chars_eq(key, &chars_of("digestsize"))
        || chars_eq(key, &chars_of("driver"))
        || chars_eq(key, &chars_of("geniv"))
        || chars_eq(key, &chars_of("internal"))
        || chars_eq(key, &chars_of("ivsize"))
        || chars_eq(key, &chars_of("maxauthsize"))
        || chars_eq(key, &chars_of("max keysize"))
        || chars_eq(key, &chars_of("min keysize"))
        || chars_eq(key, &chars_of("module"))
        || chars_eq(key, &chars_of("priority"))
        || chars_eq(key, &chars_of("refcnt"))
        || chars_eq(key, &chars_of("seedsize"))
        || chars_eq(key, &chars_of("statesize"))
        || chars_eq(key, &chars_of("selftest"))
        || chars_eq(key, &chars_of("type"))
        || chars_eq(key, &chars_of("walksize"))
}

proof fn lemma_blocks_none_stays(lines: Seq<Seq<char>>, n: int)
    requires
        0 <= n <= lines.len(),
        crypto_blocks(lines.take(n)) is None,
    ensures
        crypto_blocks(lines) is None,
    decreases lines.len() - n,
{
    if n < lines.len() {
        assert(lines.take(n + 1).drop_last() =~= lines.take(n));
        lemma_blocks_none_stays(lines, n + 1);
    } else {
        assert(lines.take(n) =~= lines);
    }
}

} // verus!
