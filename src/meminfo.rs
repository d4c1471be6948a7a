//! Memory statistics of `/proc/meminfo`: `Name: value unit` per line.
use vstd::prelude::*;
use crate::error::{field_count_error, unit_error, MetricError};
use crate::kv::{find_pair, pair_text, pairs_of, parse_pairs, PairView};
use crate::text::{chars_of, parse_u64, split_words, string_of, u64_of, words};
use crate::utils::{convert_to_bytes, unit_bytes, unit_scale};

verus! {

/// The bytes that a meminfo value gives: its first word read as a `u64` (0
/// where it is not one) times its unit, the second word where the value has
/// exactly two and bytes otherwise. `None` where the value is empty, the unit
/// is not known or the bytes do not fit in a `u64`.
pub open spec fn mem_value(value: Seq<char>) -> Option<u64> {
    let w = words(value);
    if w.len() == 0 {
        None
    } else {
        let n: nat = match u64_of(w[0]) {
            Some(v) => v as nat,
            None => 0,
        };
        let unit = if w.len() == 2 {
            w[1]
        } else {
            "B"@
        };
        match unit_scale(unit) {
            Some(s) => if n * s <= u64::MAX {
                Some((n * s) as u64)
            } else {
                None
            },
            None => None,
        }
    }
}

/// The error that a value which gives no bytes gets: `InvalidFieldNumberError`
/// where it is empty, `ByteConvertError` with the unit where that is not
/// known, else `ParseIntError` for bytes that do not fit.
pub open spec fn mem_error_fits(value: Seq<char>, e: MetricError) -> bool {
    let w = words(value);
    if w.len() == 0 {
        field_count_error(e, 0)
    } else {
        let unit = if w.len() == 2 {
            w[1]
        } else {
            "B"@
        };
        if unit_scale(unit) is None {
            unit_error(e, unit)
        } else {
            e is ParseIntError
        }
    }
}

/// Every record's value gives a number of bytes.
pub open spec fn all_mem_values(pairs: Seq<PairView>) -> bool {
    forall|i: int| 0 <= i < pairs.len() ==> (#[trigger] mem_value(pairs[i].1)) is Some
}

/// The bytes of the last record named `key`.
pub open spec fn mem_field(pairs: Seq<PairView>, key: Seq<char>) -> Option<u64> {
    match pair_text(pairs, key) {
        Some(t) => mem_value(t),
        None => None,
    }
}

/// The bytes that one value gives.
pub(crate) fn value_bytes(value: &Vec<char>) -> (r: Result<u64, MetricError>)
    ensures
        match mem_value(value@) {
            Some(b) => r == Ok::<u64, MetricError>(b),
            None => r is Err && mem_error_fits(value@, r->Err_0),
        },
{
    let w = split_words(value);
    if w.len() == 0 {
        return Err(MetricError::InvalidFieldNumberError(string_of(&chars_of("meminfo")), 0, string_of(value)));
    }
    assert(w.deep_view()[0] == w@[0]@);
    let n = match parse_u64(&w[0]) {
        Some(v) => v,
        None => 0,
    };
    let unit = if w.len() == 2 {
        assert(w.deep_view()[1] == w@[1]@);
        string_of(&w[1])
    } else {
        string_of(&chars_of("B"))
    };
    match unit_bytes(unit.as_str()) {
        None => Err(MetricError::ByteConvertError(unit)),
        Some(s) => {
            if n > u64::MAX / s {
                assert(n * s > u64::MAX) by (nonlinear_arith)
                    requires
                        n > u64::MAX / s,
                        s > 0,
                ;
                return Err(MetricError::ParseIntError(string_of(&chars_of("meminfo")), string_of(value)));
            }
            assert(n * s <= u64::MAX) by (nonlinear_arith)
                requires
                    n <= u64::MAX / s,
                    s > 0,
            ;
            match convert_to_bytes(n, unit.as_str()) {
                Ok(Some(b)) => Ok(b),
                _ => Err(MetricError::ByteConvertError(unit)),
            }
        },
    }
}

/// The records of the file, each checked to give a number of bytes.
fn check_values(lines: &Vec<String>) -> (r: Result<Vec<(Vec<char>, Vec<char>)>, MetricError>)
    ensures
        match pairs_of(lines.deep_view(), ':') {
            Some(ps) => (r is Ok <==> all_mem_values(ps)) && (r is Ok ==> r->Ok_0.deep_view() == ps)
                && (r is Err ==> exists|i: int|
                0 <= i < ps.len() && (forall|j: int| 0 <= j < i ==> (#[trigger] mem_value(ps[j].1)) is Some)
                    && #[trigger] mem_error_fits(ps[i].1, r->Err_0)),
            None => r is Err && r->Err_0 is InvalidFieldNumberError,
        },
{
    let pairs = parse_pairs(lines, ':', "meminfo")?;
    let ghost ps = pairs.deep_view();
    let mut i: usize = 0;
    while i < pairs.len()
        invariant
            i <= pairs.len() == ps.len(),
            ps == pairs.deep_view(),
            pairs_of(lines.deep_view(), ':') == Some(ps),
            forall|j: int| 0 <= j < i ==> (#[trigger] mem_value(ps[j].1)) is Some,
        decreases pairs.len() - i,
    {
        assert(ps[i as int].1 == pairs@[i as int].1@);
        match value_bytes(&pairs[i].1) {
            Ok(_) => {},
            Err(e) => {
                assert(mem_error_fits(ps[i as int].1, e));
                return Err(e);
            },
        }
        i += 1;
    }
    Ok(pairs)
}

/// The bytes of the last record named `key`, in records that all give bytes.
fn read_mem_field(pairs: &Vec<(Vec<char>, Vec<char>)>, key: &str) -> (r: Option<u64>)
    requires
        all_mem_values(pairs.deep_view()),
    ensures
        r == mem_field(pairs.deep_view(), key@),
{
    proof {
        lemma_found_value_is_some(pairs.deep_view(), key@);
    }
    match find_pair(pairs, key) {
        None => None,
        Some(t) => match value_bytes(&t) {
            Ok(b) => Some(b),
            Err(_) => None,
        },
    }
}

proof fn lemma_found_value_is_some(pairs: Seq<PairView>, key: Seq<char>)
    requires
        all_mem_values(pairs),
    ensures
        pair_text(pairs, key) is Some ==> mem_value(pair_text(pairs, key)->Some_0) is Some,
    decreases pairs.len(),
{
    if pairs.len() > 0 {
        assert(mem_value(pairs[pairs.len() - 1].1) is Some);
        assert(all_mem_values(pairs.drop_last())) by {
            assert forall|i: int| 0 <= i < pairs.drop_last().len() implies (#[trigger] mem_value(
                pairs.drop_last()[i].1,
            )) is Some by {
                assert(pairs.drop_last()[i] == pairs[i]);
            }
        }
        lemma_found_value_is_some(pairs.drop_last(), key);
    }
}


/// Memory statistics of `/proc/meminfo`, in bytes.
#[derive(Debug, Clone)]
pub struct Meminfo {
    pub mem_total: Option<u64>,
    pub mem_free: Option<u64>,
    pub mem_available: Option<u64>,
    pub buffers: Option<u64>,
    pub cached: Option<u64>,
    pub swap_cached: Option<u64>,
    pub active: Option<u64>,
    pub inactive: Option<u64>,
    pub active_anon: Option<u64>,
    pub inactive_anon: Option<u64>,
    pub active_file: Option<u64>,
    pub inactive_file: Option<u64>,
    pub unevictable: Option<u64>,
    pub mlocked: Option<u64>,
    pub swap_total: Option<u64>,
    pub swap_free: Option<u64>,
    pub z_swap: Option<u64>,
    pub z_swapped: Option<u64>,
    pub dirty: Option<u64>,
    pub writeback: Option<u64>,
    pub annon_pages: Option<u64>,
    pub mapped: Option<u64>,
    pub shmem: Option<u64>,
    pub k_reclaimable: Option<u64>,
    pub slap: Option<u64>,
    pub s_reclaimable: Option<u64>,
    pub s_unreclaim: Option<u64>,
    pub kernel_stack: Option<u64>,
    pub page_tables: Option<u64>,
    pub sec_page_tables: Option<u64>,
    pub nfs_unstable: Option<u64>,
    pub bounce: Option<u64>,
    pub writeback_tmp: Option<u64>,
    pub commit_limit: Option<u64>,
    pub committed_as: Option<u64>,
    pub vmalloc_total: Option<u64>,
    pub vmalloc_used: Option<u64>,
    pub vmalloc_chunk: Option<u64>,
    pub per_cpu: Option<u64>,
    pub hardware_corrupted: Option<u64>,
    pub annon_huge_pages: Option<u64>,
    pub shmem_huge_pages: Option<u64>,
    pub shmem_pmd_mapped: Option<u64>,
    pub file_huge_pages: Option<u64>,
    pub file_pmd_mapped: Option<u64>,
    pub cma_total: Option<u64>,
    pub cma_free: Option<u64>,
    pub unaccepted: Option<u64>,
    pub huge_pages_total: Option<u64>,
    pub huge_pages_free: Option<u64>,
    pub huge_pages_rsvd: Option<u64>,
    pub huge_pages_surp: Option<u64>,
    pub huge_page_size: Option<u64>,
    pub huge_tlb: Option<u64>,
    pub direct_map_4k: Option<u64>,
    pub direct_map_2m: Option<u64>,
    pub direct_map_1g: Option<u64>,
}

impl Meminfo {
    /// Each field holds what the records give its name.
    pub open spec fn read_from(&self, pairs: Seq<PairView>) -> bool {
        self.mem_total == mem_field(pairs, "MemTotal"@)
            && self.mem_free == mem_field(pairs, "MemFree"@)
            && self.mem_available == mem_field(pairs, "MemAvailable"@)
            && self.buffers == mem_field(pairs, "Buffers"@)
            && self.cached == mem_field(pairs, "Cached"@)
            && self.swap_cached == mem_field(pairs, "SwapCached"@)
            && self.active == mem_field(pairs, "Active"@)
            && self.inactive == mem_field(pairs, "Inactive"@)
            && self.active_anon == mem_field(pairs, "Active(anon)"@)
            && self.inactive_anon == mem_field(pairs, "Inactive(anon)"@)
            && self.active_file == mem_field(pairs, "Active(file)"@)
            && self.inactive_file == mem_field(pairs, "Inactive(file)"@)
            && self.unevictable == mem_field(pairs, "Unevictable"@)
            && self.mlocked == mem_field(pairs, "Mlocked"@)
            && self.swap_total == mem_field(pairs, "SwapTotal"@)
            && self.swap_free == mem_field(pairs, "SwapFree"@)
            && self.z_swap == mem_field(pairs, "Zswap"@)
            && self.z_swapped == mem_field(pairs, "Zswapped"@)
            && self.dirty == mem_field(pairs, "Dirty"@)
            && self.writeback == mem_field(pairs, "Writeback"@)
            && self.annon_pages == mem_field(pairs, "AnonPages"@)
            && self.mapped == mem_field(pairs, "Mapped"@)
            && self.shmem == mem_field(pairs, "Shmem"@)
            && self.k_reclaimable == mem_field(pairs, "KReclaimable"@)
            && self.slap == mem_field(pairs, "Slab"@)
            && self.s_reclaimable == mem_field(pairs, "SReclaimable"@)
            && self.s_unreclaim == mem_field(pairs, "SUnreclaim"@)
            && self.kernel_stack == mem_field(pairs, "KernelStack"@)
            && self.page_tables == mem_field(pairs, "PageTables"@)
            && self.sec_page_tables == mem_field(pairs, "SecPageTables"@)
            && self.nfs_unstable == mem_field(pairs, "NFS_Unstable"@)
            && self.bounce == mem_field(pairs, "Bounce"@)
            && self.writeback_tmp == mem_field(pairs, "WritebackTmp"@)
            && self.commit_limit == mem_field(pairs, "CommitLimit"@)
            && self.committed_as == mem_field(pairs, "Committed_AS"@)
            && self.vmalloc_total == mem_field(pairs, "VmallocTotal"@)
            && self.vmalloc_used == mem_field(pairs, "VmallocUsed"@)
            && self.vmalloc_chunk == mem_field(pairs, "VmallocChunk"@)
            && self.per_cpu == mem_field(pairs, "Percpu"@)
            && self.hardware_corrupted == mem_field(pairs, "HardwareCorrupted"@)
            && self.annon_huge_pages == mem_field(pairs, "AnonHugePages"@)
            && self.shmem_huge_pages == mem_field(pairs, "ShmemHugePages"@)
            && self.shmem_pmd_mapped == mem_field(pairs, "ShmemPmdMapped"@)
            && self.file_huge_pages == mem_field(pairs, "FileHugePages"@)
            && self.file_pmd_mapped == mem_field(pairs, "FilePmdMapped"@)
            && self.cma_total == mem_field(pairs, "CmaTotal"@)
            && self.cma_free == mem_field(pairs, "CmaFree"@)
            && self.unaccepted == mem_field(pairs, "Unaccepted"@)
            && self.huge_pages_total == mem_field(pairs, "HugePages_Total"@)
            && self.huge_pages_free == mem_field(pairs, "HugePages_Free"@)
            && self.huge_pages_rsvd == mem_field(pairs, "HugePages_Rsvd"@)
            && self.huge_pages_surp == mem_field(pairs, "HugePages_Surp"@)
            && self.huge_page_size == mem_field(pairs, "Hugepagesize"@)
            && self.huge_tlb == mem_field(pairs, "Hugetlb"@)
            && self.direct_map_4k == mem_field(pairs, "DirectMap4k"@)
            && self.direct_map_2m == mem_field(pairs, "DirectMap2M"@)
            && self.direct_map_1g == mem_field(pairs, "DirectMap1G"@)
    }

    /// Every field at its value before anything is read.
    pub open spec fn is_blank(&self) -> bool {
        self.mem_total is None
            && self.mem_free is None
            && self.mem_available is None
            && self.buffers is None
            && self.cached is None
            && self.swap_cached is None
            && self.active is None
            && self.inactive is None
            && self.active_anon is None
            && self.inactive_anon is None
            && self.active_file is None
            && self.inactive_file is None
            && self.unevictable is None
            && self.mlocked is None
            && self.swap_total is None
            && self.swap_free is None
            && self.z_swap is None
            && self.z_swapped is None
            && self.dirty is None
            && self.writeback is None
            && self.annon_pages is None
            && self.mapped is None
            && self.shmem is None
            && self.k_reclaimable is None
            && self.slap is None
            && self.s_reclaimable is None
            && self.s_unreclaim is None
            && self.kernel_stack is None
            && self.page_tables is None
            && self.sec_page_tables is None
            && self.nfs_unstable is None
            && self.bounce is None
            && self.writeback_tmp is None
            && self.commit_limit is None
            && self.committed_as is None
            && self.vmalloc_total is None
            && self.vmalloc_used is None
            && self.vmalloc_chunk is None
            && self.per_cpu is None
            && self.hardware_corrupted is None
            && self.annon_huge_pages is None
            && self.shmem_huge_pages is None
            && self.shmem_pmd_mapped is None
            && self.file_huge_pages is None
            && self.file_pmd_mapped is None
            && self.cma_total is None
            && self.cma_free is None
            && self.unaccepted is None
            && self.huge_pages_total is None
            && self.huge_pages_free is None
            && self.huge_pages_rsvd is None
            && self.huge_pages_surp is None
            && self.huge_page_size is None
            && self.huge_tlb is None
            && self.direct_map_4k is None
            && self.direct_map_2m is None
            && self.direct_map_1g is None
    }

    pub fn new() -> (r: Self)
        ensures
            r.is_blank(),
    {
        Meminfo {
            mem_total: None,
            mem_free: None,
            mem_available: None,
            buffers: None,
            cached: None,
            swap_cached: None,
            active: None,
            inactive: None,
            active_anon: None,
            inactive_anon: None,
            active_file: None,
            inactive_file: None,
            unevictable: None,
            mlocked: None,
            swap_total: None,
            swap_free: None,
            z_swap: None,
            z_swapped: None,
            dirty: None,
            writeback: None,
            annon_pages: None,
            mapped: None,
            shmem: None,
            k_reclaimable: None,
            slap: None,
            s_reclaimable: None,
            s_unreclaim: None,
            kernel_stack: None,
            page_tables: None,
            sec_page_tables: None,
            nfs_unstable: None,
            bounce: None,
            writeback_tmp: None,
            commit_limit: None,
            committed_as: None,
            vmalloc_total: None,
            vmalloc_used: None,
            vmalloc_chunk: None,
            per_cpu: None,
            hardware_corrupted: None,
            annon_huge_pages: None,
            shmem_huge_pages: None,
            shmem_pmd_mapped: None,
            file_huge_pages: None,
            file_pmd_mapped: None,
            cma_total: None,
            cma_free: None,
            unaccepted: None,
            huge_pages_total: None,
            huge_pages_free: None,
            huge_pages_rsvd: None,
            huge_pages_surp: None,
            huge_page_size: None,
            huge_tlb: None,
            direct_map_4k: None,
            direct_map_2m: None,
            direct_map_1g: None,
        }
    }

    /// The statistics of `/proc/meminfo`, given as its lines, in bytes.
    #[verifier::rlimit(50)]
    pub fn parse(lines: &Vec<String>) -> (r: Result<Self, MetricError>)
        ensures
            match pairs_of(lines.deep_view(), ':') {
                Some(ps) => (r is Ok <==> all_mem_values(ps)) && (r is Ok ==> r->Ok_0.read_from(ps))
                    && (r is Err ==> exists|i: int|
                    0 <= i < ps.len() && (forall|j: int| 0 <= j < i ==> (#[trigger] mem_value(ps[j].1)) is Some)
                        && #[trigger] mem_error_fits(ps[i].1, r->Err_0)),
                None => r is Err && r->Err_0 is InvalidFieldNumberError,
            },
    {
        let pairs = check_values(lines)?;
        Ok(Meminfo {
            mem_total: read_mem_field(&pairs, "MemTotal"),
            mem_free: read_mem_field(&pairs, "MemFree"),
            mem_available: read_mem_field(&pairs, "MemAvailable"),
            buffers: read_mem_field(&pairs, "Buffers"),
            cached: read_mem_field(&pairs, "Cached"),
            swap_cached: read_mem_field(&pairs, "SwapCached"),
            active: read_mem_field(&pairs, "Active"),
            inactive: read_mem_field(&pairs, "Inactive"),
            active_anon: read_mem_field(&pairs, "Active(anon)"),
            inactive_anon: read_mem_field(&pairs, "Inactive(anon)"),
            active_file: read_mem_field(&pairs, "Active(file)"),
            inactive_file: read_mem_field(&pairs, "Inactive(file)"),
            unevictable: read_mem_field(&pairs, "Unevictable"),
            mlocked: read_mem_field(&pairs, "Mlocked"),
            swap_total: read_mem_field(&pairs, "SwapTotal"),
            swap_free: read_mem_field(&pairs, "SwapFree"),
            z_swap: read_mem_field(&pairs, "Zswap"),
            z_swapped: read_mem_field(&pairs, "Zswapped"),
            dirty: read_mem_field(&pairs, "Dirty"),
            writeback: read_mem_field(&pairs, "Writeback"),
            annon_pages: read_mem_field(&pairs, "AnonPages"),
            mapped: read_mem_field(&pairs, "Mapped"),
            shmem: read_mem_field(&pairs, "Shmem"),
            k_reclaimable: read_mem_field(&pairs, "KReclaimable"),
            slap: read_mem_field(&pairs, "Slab"),
            s_reclaimable: read_mem_field(&pairs, "SReclaimable"),
            s_unreclaim: read_mem_field(&pairs, "SUnreclaim"),
            kernel_stack: read_mem_field(&pairs, "KernelStack"),
            page_tables: read_mem_field(&pairs, "PageTables"),
            sec_page_tables: read_mem_field(&pairs, "SecPageTables"),
            nfs_unstable: read_mem_field(&pairs, "NFS_Unstable"),
            bounce: read_mem_field(&pairs, "Bounce"),
            writeback_tmp: read_mem_field(&pairs, "WritebackTmp"),
            commit_limit: read_mem_field(&pairs, "CommitLimit"),
            committed_as: read_mem_field(&pairs, "Committed_AS"),
            vmalloc_total: read_mem_field(&pairs, "VmallocTotal"),
            vmalloc_used: read_mem_field(&pairs, "VmallocUsed"),
            vmalloc_chunk: read_mem_field(&pairs, "VmallocChunk"),
            per_cpu: read_mem_field(&pairs, "Percpu"),
            hardware_corrupted: read_mem_field(&pairs, "HardwareCorrupted"),
            annon_huge_pages: read_mem_field(&pairs, "AnonHugePages"),
            shmem_huge_pages: read_mem_field(&pairs, "ShmemHugePages"),
            shmem_pmd_mapped: read_mem_field(&pairs, "ShmemPmdMapped"),
            file_huge_pages: read_mem_field(&pairs, "FileHugePages"),
            file_pmd_mapped: read_mem_field(&pairs, "FilePmdMapped"),
            cma_total: read_mem_field(&pairs, "CmaTotal"),
            cma_free: read_mem_field(&pairs, "CmaFree"),
            unaccepted: read_mem_field(&pairs, "Unaccepted"),
            huge_pages_total: read_mem_field(&pairs, "HugePages_Total"),
            huge_pages_free: read_mem_field(&pairs, "HugePages_Free"),
            huge_pages_rsvd: read_mem_field(&pairs, "HugePages_Rsvd"),
            huge_pages_surp: read_mem_field(&pairs, "HugePages_Surp"),
            huge_page_size: read_mem_field(&pairs, "Hugepagesize"),
            huge_tlb: read_mem_field(&pairs, "Hugetlb"),
            direct_map_4k: read_mem_field(&pairs, "DirectMap4k"),
            direct_map_2m: read_mem_field(&pairs, "DirectMap2M"),
            direct_map_1g: read_mem_field(&pairs, "DirectMap1G"),
        })
    }
}

} // verus!
