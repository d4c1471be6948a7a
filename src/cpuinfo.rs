//! Processors of `/proc/cpuinfo`: one block of `key : value` lines per
//! logical CPU, each block opened by its `processor` line. The frequency and
//! BogoMIPS figures are decimal fractions and are kept as written.
use vstd::prelude::*;
use crate::error::MetricError;
use crate::kv::{find_pair, pair_text, PairView};
use crate::meminfo::{mem_value, value_bytes};
use crate::text::{chars_eq, chars_of, fields, parse_u32, pieces, split_all, split_trimmed, string_of, strings_of, trim, trimmed, u32_of};

verus! {

/// The entry of a line: its text before the first colon and after it, both
/// trimmed; none where the line does not split into exactly two pieces.
pub open spec fn cpu_entry(line: Seq<char>) -> Option<PairView> {
    let p = pieces(trimmed(line), ':');
    if p.len() == 2 {
        Some((trimmed(p[0]), trimmed(p[1])))
    } else {
        None
    }
}

/// The keys that set a field of the current algorithm.
pub open spec fn sets_field(key: Seq<char>) -> bool {
    key == "cpu family"@
        || key == "model"@
        || key == "stepping"@
        || key == "physical id"@
        || key == "siblings"@
        || key == "core id"@
        || key == "cpu cores"@
        || key == "apicid"@
        || key == "initial apicid"@
        || key == "cpuid level"@
        || key == "clflush size"@
        || key == "cache_alignment"@
        || key == "vendor_id"@
        || key == "model name"@
        || key == "microcode"@
        || key == "cpu MHz"@
        || key == "fpu"@
        || key == "fpu_exception"@
        || key == "wp"@
        || key == "bogomips"@
        || key == "address sizes"@
        || key == "power management"@
        || key == "flags"@
        || key == "vmx flags"@
        || key == "bugs"@
        || key == "cache size"@
}

/// The entries of `lines` grouped per algorithm: a `processor` entry opens a
/// block, a field entry joins the open one, other entries are passed over.
/// `None` where a field entry comes before any `processor`.
pub open spec fn cpu_blocks(lines: Seq<Seq<char>>) -> Option<Seq<Seq<PairView>>>
    decreases lines.len(),
{
    if lines.len() == 0 {
        Some(Seq::empty())
    } else {
        match cpu_blocks(lines.drop_last()) {
            None => None,
            Some(bs) => match cpu_entry(lines.last()) {
                None => Some(bs),
                Some(e) => if e.0 == "processor"@ {
                    Some(bs.push(seq![e]))
                } else if sets_field(e.0) {
                    if bs.len() == 0 {
                        None
                    } else {
                        Some(bs.update(bs.len() - 1, bs.last().push(e)))
                    }
                } else {
                    Some(bs)
                },
            },
        }
    }
}


pub open spec fn text_or_empty(t: Option<Seq<char>>) -> Seq<char> {
    match t {
        Some(s) => s,
        None => Seq::empty(),
    }
}

/// A count that is absent (0) or a `u32`.
pub open spec fn u32_entry_ok(t: Option<Seq<char>>) -> bool {
    match t {
        Some(s) => u32_of(s) is Some,
        None => true,
    }
}

pub open spec fn u32_entry(t: Option<Seq<char>>) -> u32 {
    match t {
        Some(s) => match u32_of(s) {
            Some(v) => v,
            None => 0,
        },
        None => 0,
    }
}

/// A size in bytes that is absent (0) or a meminfo-style value.
pub open spec fn size_entry_ok(t: Option<Seq<char>>) -> bool {
    match t {
        Some(s) => mem_value(s) is Some,
        None => true,
    }
}

pub open spec fn size_entry(t: Option<Seq<char>>) -> u64 {
    match t {
        Some(s) => match mem_value(s) {
            Some(v) => v,
            None => 0,
        },
        None => 0,
    }
}

/// A list value split at each space, empty where it is absent.
pub open spec fn list_entry(t: Option<Seq<char>>) -> Seq<Seq<char>> {
    match t {
        Some(s) => fields(trimmed(s), ' '),
        None => Seq::empty(),
    }
}

fn entry_u32(block: &Vec<(Vec<char>, Vec<char>)>, key: &str) -> (r: Result<u32, MetricError>)
    ensures
        r is Ok <==> u32_entry_ok(pair_text(block.deep_view(), key@)),
        r is Ok ==> r->Ok_0 == u32_entry(pair_text(block.deep_view(), key@)),
{
    match find_pair(block, key) {
        None => Ok(0),
        Some(t) => match parse_u32(&t) {
            Some(v) => Ok(v),
            None => Err(MetricError::ParseIntError(string_of(&chars_of(key)), string_of(&t))),
        },
    }
}

fn entry_size(block: &Vec<(Vec<char>, Vec<char>)>, key: &str) -> (r: Result<u64, MetricError>)
    ensures
        r is Ok <==> size_entry_ok(pair_text(block.deep_view(), key@)),
        r is Ok ==> r->Ok_0 == size_entry(pair_text(block.deep_view(), key@)),
{
    match find_pair(block, key) {
        None => Ok(0),
        Some(t) => value_bytes(&t),
    }
}

fn entry_text(block: &Vec<(Vec<char>, Vec<char>)>, key: &str) -> (r: String)
    ensures
        r@ == text_or_empty(pair_text(block.deep_view(), key@)),
{
    match find_pair(block, key) {
        None => String::new(),
        Some(t) => string_of(&t),
    }
}

fn entry_list(block: &Vec<(Vec<char>, Vec<char>)>, key: &str) -> (r: Vec<String>)
    ensures
        r.deep_view() == list_entry(pair_text(block.deep_view(), key@)),
{
    match find_pair(block, key) {
        None => {
            let v: Vec<String> = Vec::new();
            assert(v.deep_view() =~= Seq::<Seq<char>>::empty());
            v
        },
        Some(t) => {
            let s = trim(&t);
            assert(s@.subrange(0, s.len() as int) =~= s@);
            strings_of(&split_all(&s, 0, s.len(), ' '))
        },
    }
}

/// One logical processor. `cpu_mhz` and `bogomips` hold the decimal text
/// that the kernel writes.
#[derive(Debug, Clone)]
pub struct CpuInfo {
    pub processor: u32,
    pub vendor_id: String,
    pub cpu_family: u32,
    pub model: u32,
    pub model_name: String,
    pub stepping: u32,
    pub microcode: String,
    pub cpu_mhz: String,
    pub cache_size_bytes: u64,
    pub physical_id: u32,
    pub siblings: u32,
    pub core_id: u32,
    pub cpu_cores: u32,
    pub apic_id: u32,
    pub initial_apic_id: u32,
    pub fpu: String,
    pub fpu_exception: String,
    pub cpu_id_level: u32,
    pub wp: String,
    pub flags: Vec<String>,
    pub vmx_flags: Vec<String>,
    pub bugs: Vec<String>,
    pub bogomips: String,
    pub clflush_size: u32,
    pub cache_alignment: u32,
    pub address_sizes: String,
    pub power_management: String,
}

impl CpuInfo {
    /// Each field holds the last value its key has in the block; `processor` is the number of the opening entry, 0 where it is not one.
    pub open spec fn read_from(&self, block: Seq<PairView>) -> bool {
        self.processor == (match u32_of(block[0].1) { Some(v) => v, None => 0 })
            && self.vendor_id@ == text_or_empty(pair_text(block, "vendor_id"@))
            && self.cpu_family == u32_entry(pair_text(block, "cpu family"@))
            && self.model == u32_entry(pair_text(block, "model"@))
            && self.model_name@ == text_or_empty(pair_text(block, "model name"@))
            && self.stepping == u32_entry(pair_text(block, "stepping"@))
            && self.microcode@ == text_or_empty(pair_text(block, "microcode"@))
            && self.cpu_mhz@ == text_or_empty(pair_text(block, "cpu MHz"@))
            && self.cache_size_bytes == size_entry(pair_text(block, "cache size"@))
            && self.physical_id == u32_entry(pair_text(block, "physical id"@))
            && self.siblings == u32_entry(pair_text(block, "siblings"@))
            && self.core_id == u32_entry(pair_text(block, "core id"@))
            && self.cpu_cores == u32_entry(pair_text(block, "cpu cores"@))
            && self.apic_id == u32_entry(pair_text(block, "apicid"@))
            && self.initial_apic_id == u32_entry(pair_text(block, "initial apicid"@))
            && self.fpu@ == text_or_empty(pair_text(block, "fpu"@))
            && self.fpu_exception@ == text_or_empty(pair_text(block, "fpu_exception"@))
            && self.cpu_id_level == u32_entry(pair_text(block, "cpuid level"@))
            && self.wp@ == text_or_empty(pair_text(block, "wp"@))
            && self.flags.deep_view() == list_entry(pair_text(block, "flags"@))
            && self.vmx_flags.deep_view() == list_entry(pair_text(block, "vmx flags"@))
            && self.bugs.deep_view() == list_entry(pair_text(block, "bugs"@))
            && self.bogomips@ == text_or_empty(pair_text(block, "bogomips"@))
            && self.clflush_size == u32_entry(pair_text(block, "clflush size"@))
            && self.cache_alignment == u32_entry(pair_text(block, "cache_alignment"@))
            && self.address_sizes@ == text_or_empty(pair_text(block, "address sizes"@))
            && self.power_management@ == text_or_empty(pair_text(block, "power management"@))
    }

    /// Every count and size of the block parses.
    pub open spec fn readable(block: Seq<PairView>) -> bool {
        u32_entry_ok(pair_text(block, "cpu family"@))
            && u32_entry_ok(pair_text(block, "model"@))
            && u32_entry_ok(pair_text(block, "stepping"@))
            && u32_entry_ok(pair_text(block, "physical id"@))
            && u32_entry_ok(pair_text(block, "siblings"@))
            && u32_entry_ok(pair_text(block, "core id"@))
            && u32_entry_ok(pair_text(block, "cpu cores"@))
            && u32_entry_ok(pair_text(block, "apicid"@))
            && u32_entry_ok(pair_text(block, "initial apicid"@))
            && u32_entry_ok(pair_text(block, "cpuid level"@))
            && u32_entry_ok(pair_text(block, "clflush size"@))
            && u32_entry_ok(pair_text(block, "cache_alignment"@))
            && size_entry_ok(pair_text(block, "cache size"@))
    }

    /// The processor of one block, opened by its `processor` entry.
    pub fn from_block(block: &Vec<(Vec<char>, Vec<char>)>) -> (r: Result<Self, MetricError>)
        requires
            block.len() > 0,
        ensures
            r is Ok <==> Self::readable(block.deep_view()),
            r is Ok ==> r->Ok_0.read_from(block.deep_view()),
    {
        assert(block.deep_view()[0].1 == block@[0].1@);
        let processor = match parse_u32(&block[0].1) {
            Some(v) => v,
            None => 0,
        };
        let cpu_family = match entry_u32(block, "cpu family") {
            Ok(v) => v,
            Err(e) => return Err(e),
        };
        let model = match entry_u32(block, "model") {
            Ok(v) => v,
            Err(e) => return Err(e),
        };
        let stepping = match entry_u32(block, "stepping") {
            Ok(v) => v,
            Err(e) => return Err(e),
        };
        let physical_id = match entry_u32(block, "physical id") {
            Ok(v) => v,
            Err(e) => return Err(e),
        };
        let siblings = match entry_u32(block, "siblings") {
            Ok(v) => v,
            Err(e) => return Err(e),
        };
        let core_id = match entry_u32(block, "core id") {
            Ok(v) => v,
            Err(e) => return Err(e),
        };
        let cpu_cores = match entry_u32(block, "cpu cores") {
            Ok(v) => v,
            Err(e) => return Err(e),
        };
        let apic_id = match entry_u32(block, "apicid") {
            Ok(v) => v,
            Err(e) => return Err(e),
        };
        let initial_apic_id = match entry_u32(block, "initial apicid") {
            Ok(v) => v,
            Err(e) => return Err(e),
        };
        let cpu_id_level = match entry_u32(block, "cpuid level") {
            Ok(v) => v,
            Err(e) => return Err(e),
        };
        let clflush_size = match entry_u32(block, "clflush size") {
            Ok(v) => v,
            Err(e) => return Err(e),
        };
        let cache_alignment = match entry_u32(block, "cache_alignment") {
            Ok(v) => v,
            Err(e) => return Err(e),
        };
        let cache_size_bytes = match entry_size(block, "cache size") {
            Ok(v) => v,
            Err(e) => return Err(e),
        };
        Ok(CpuInfo {
            processor,
            vendor_id: entry_text(block, "vendor_id"),
            cpu_family,
            model,
            model_name: entry_text(block, "model name"),
            stepping,
            microcode: entry_text(block, "microcode"),
            cpu_mhz: entry_text(block, "cpu MHz"),
            cache_size_bytes,
            physical_id,
            siblings,
            core_id,
            cpu_cores,
            apic_id,
            initial_apic_id,
            fpu: entry_text(block, "fpu"),
            fpu_exception: entry_text(block, "fpu_exception"),
            cpu_id_level,
            wp: entry_text(block, "wp"),
            flags: entry_list(block, "flags"),
            vmx_flags: entry_list(block, "vmx flags"),
            bugs: entry_list(block, "bugs"),
            bogomips: entry_text(block, "bogomips"),
            clflush_size,
            cache_alignment,
            address_sizes: entry_text(block, "address sizes"),
            power_management: entry_text(block, "power management"),
        })
    }

    /// The processors of the file given as its lines, in order.
    pub fn parse(lines: &Vec<String>) -> (r: Result<Vec<Self>, MetricError>)
        ensures
            r is Ok <==> (cpu_blocks(lines.deep_view()) is Some && forall|k: int|
                0 <= k < cpu_blocks(lines.deep_view())->Some_0.len() ==> Self::readable(
                    #[trigger] cpu_blocks(lines.deep_view())->Some_0[k],
                )),
            r is Ok ==> r->Ok_0.len() == cpu_blocks(lines.deep_view())->Some_0.len(),
            r is Ok ==> forall|k: int| 0 <= k < r->Ok_0.len() ==> (#[trigger] r->Ok_0@[k]).read_from(
                cpu_blocks(lines.deep_view())->Some_0[k],
            ),
    {
        let blocks = group_blocks(lines)?;
        let ghost bs = cpu_blocks(lines.deep_view())->Some_0;
        let mut out: Vec<Self> = Vec::new();
        let mut k: usize = 0;
        while k < blocks.len()
            invariant
                k <= blocks.len() == bs.len(),
                blocks.deep_view() == bs,
                cpu_blocks(lines.deep_view()) == Some(bs),
                forall|j: int| 0 <= j < bs.len() ==> (#[trigger] bs[j]).len() > 0,
                forall|j: int| 0 <= j < k ==> Self::readable(#[trigger] bs[j]),
                out.len() == k,
                forall|j: int| 0 <= j < k ==> (#[trigger] out@[j]).read_from(bs[j]),
            decreases blocks.len() - k,
        {
            assert(bs[k as int] == blocks@[k as int].deep_view());
            let rec = match Self::from_block(&blocks[k]) {
                Ok(r) => r,
                Err(e) => {
                    assert(!Self::readable(cpu_blocks(lines.deep_view())->Some_0[k as int]));
                    return Err(e);
                },
            };
            out.push(rec);
            k += 1;
        }
        Ok(out)
    }
}

/// The blocks of `lines`, each opened by its `processor` entry.
fn group_blocks(lines: &Vec<String>) -> (r: Result<Vec<Vec<(Vec<char>, Vec<char>)>>, MetricError>)
    ensures
        r is Ok <==> cpu_blocks(lines.deep_view()) is Some,
        r is Ok ==> r->Ok_0.deep_view() == cpu_blocks(lines.deep_view())->Some_0,
        r is Ok ==> forall|j: int| 0 <= j < r->Ok_0.len() ==> (#[trigger] r->Ok_0@[j]).len() > 0,
{
    let ghost all = lines.deep_view();
    let mut out: Vec<Vec<(Vec<char>, Vec<char>)>> = Vec::new();
    let mut i: usize = 0;
    assert(all.take(0) =~= Seq::<Seq<char>>::empty());
    while i < lines.len()
        invariant
            i <= lines.len(),
            all == lines.deep_view(),
            cpu_blocks(all.take(i as int)) == Some(out.deep_view()),
            forall|j: int| 0 <= j < out.len() ==> (#[trigger] out@[j]).len() > 0,
        decreases lines.len() - i,
    {
        let ghost next = all.take(i + 1);
        assert(next.drop_last() =~= all.take(i as int));
        assert(next.last() == lines@[i as int]@);
        let c = chars_of(lines[i].as_str());
        let p = split_trimmed(&c, ':');
        if p.len() == 2 {
            assert(p.deep_view()[0] == p@[0]@ && p.deep_view()[1] == p@[1]@);
            let key = trim(&p[0]);
            let value = trim(&p[1]);
            assert(key.deep_view() =~= key@);
            assert(value.deep_view() =~= value@);
            let ghost e = (key@, value@);
            let ghost before = out.deep_view();
            if chars_eq(&key, &chars_of("processor")) {
                let mut block: Vec<(Vec<char>, Vec<char>)> = Vec::new();
                block.push((key, value));
                assert(block.deep_view() =~= seq![e]);
                out.push(block);
                assert(out.deep_view() =~= before.push(seq![e]));
            } else if is_field_key(&key) {
                if out.len() == 0 {
                    proof {
                        lemma_blocks_none_stays(all, i + 1);
                    }
                    return Err(
                        MetricError::InvalidFieldNumberError(
                            string_of(&chars_of("cpuinfo")),
                            0,
                            lines[i].clone(),
                        ),
                    );
                }
                let last = out.len() - 1;
                let mut block = out.pop().unwrap();
                let ghost bv = block.deep_view();
                assert(bv == before[last as int]);
                block.push((key, value));
                assert(block.deep_view() =~= bv.push(e));
                out.push(block);
                assert(out.deep_view() =~= before.update(last as int, bv.push(e)));
            }
        }
        i += 1;
    }
    assert(all.take(lines.len() as int) =~= all);
    Ok(out)
}

fn is_field_key(key: &Vec<char>) -> (r: bool)
    ensures
        r == sets_field(key@),
{
    chars_eq(key, &chars_of("cpu family"))
        || chars_eq(key, &chars_of("model"))
        || chars_eq(key, &chars_of("stepping"))
        || chars_eq(key, &chars_of("physical id"))
        || chars_eq(key, &chars_of("siblings"))
        || chars_eq(key, &chars_of("core id"))
        || chars_eq(key, &chars_of("cpu cores"))
        || chars_eq(key, &chars_of("apicid"))
        || chars_eq(key, &chars_of("initial apicid"))
        || chars_eq(key, &chars_of("cpuid level"))
        || chars_eq(key, &chars_of("clflush size"))
        || chars_eq(key, &chars_of("cache_alignment"))
        || chars_eq(key, &chars_of("vendor_id"))
        || chars_eq(key, &chars_of("model name"))
        || chars_eq(key, &chars_of("microcode"))
        || chars_eq(key, &chars_of("cpu MHz"))
        || chars_eq(key, &chars_of("fpu"))
        || chars_eq(key, &chars_of("fpu_exception"))
        || chars_eq(key, &chars_of("wp"))
        || chars_eq(key, &chars_of("bogomips"))
        || chars_eq(key, &chars_of("address sizes"))
        || chars_eq(key, &chars_of("power management"))
        || chars_eq(key, &chars_of("flags"))
        || chars_eq(key, &chars_of("vmx flags"))
        || chars_eq(key, &chars_of("bugs"))
        || chars_eq(key, &chars_of("cache size"))
}

proof fn lemma_blocks_none_stays(lines: Seq<Seq<char>>, n: int)
    requires
        0 <= n <= lines.len(),
        cpu_blocks(lines.take(n)) is None,
    ensures
        cpu_blocks(lines) is None,
    decreases lines.len() - n,
{
    if n < lines.len() {
        assert(lines.take(n + 1).drop_last() =~= lines.take(n));
        lemma_blocks_none_stays(lines, n + 1);
    } else {
        assert(lines.take(n) =~= lines);
    }
}

} // verus!
