//! The resource limits of a process, from `/proc/<pid>/limits`.
use vstd::prelude::*;
use crate::error::MetricError;
use crate::pattern::{groups, regex_compiles, regex_groups, Groups};
use crate::text::{chars_eq, chars_of, parse_u64, starts_with, trim, trimmed, u64_of};

verus! {

/// The limit that the file writes as `unlimited`.
pub const MAX_LIMIT_SIZE: u64 = 18446744073709551615;

/// A line of the table: the resource's name, its soft limit and its hard limit.
pub const LIMIT_LINE_PATTERN: &'static str = r"(Max \w+\s{0,1}?\w*\s{0,1}\w*)\s{2,}(\w+)\s+(\w+)";

/// A soft limit as written: `unlimited` is the largest value, a number is
/// itself, anything else reads as 0.
pub open spec fn limit_value(soft: Option<Seq<char>>) -> u64 {
    match soft {
        Some(s) => if s == "unlimited"@ {
            MAX_LIMIT_SIZE
        } else {
            match u64_of(s) {
                Some(v) => v,
                None => 0,
            }
        },
        None => 0,
    }
}

/// Whether a capture names the resource `name`, once trimmed.
pub open spec fn names_resource(g: Groups, name: Seq<char>) -> bool {
    match g.0 {
        Some(n) => trimmed(n) == name,
        None => false,
    }
}

/// The soft limit of resource `name`: that of the last capture naming it, 0
/// where none does.
pub open spec fn limit_of(caps: Seq<Groups>, name: Seq<char>) -> u64
    decreases caps.len(),
{
    if caps.len() == 0 {
        0
    } else if names_resource(caps.last(), name) {
        limit_value(caps.last().1)
    } else {
        limit_of(caps.drop_last(), name)
    }
}

/// The captures of every line but the header lines, which begin with `Limit`.
pub open spec fn limit_captures(lines: Seq<Seq<char>>) -> Seq<Groups>
    decreases lines.len(),
{
    if lines.len() == 0 {
        Seq::empty()
    } else if lines.last().len() >= 5 && lines.last().take(5) == "Limit"@ {
        limit_captures(lines.drop_last())
    } else {
        limit_captures(lines.drop_last()) + regex_groups(LIMIT_LINE_PATTERN@, lines.last())
    }
}

fn soft_limit(soft: &Option<String>) -> (r: u64)
    ensures
        r == limit_value(soft.deep_view()),
{
    match soft {
        Some(s) => {
            let c = chars_of(s.as_str());
            if chars_eq(&c, &chars_of("unlimited")) {
                MAX_LIMIT_SIZE
            } else {
                match parse_u64(&c) {
                    Some(v) => v,
                    None => 0,
                }
            }
        },
        None => 0,
    }
}

fn names(g: &(Option<String>, Option<String>, Option<String>), name: &Vec<char>) -> (r: bool)
    ensures
        r == names_resource(g.deep_view(), name@),
{
    match &g.0 {
        Some(n) => chars_eq(&trim(&chars_of(n.as_str())), name),
        None => false,
    }
}

/// The soft limit of resource `name` among the captures.
fn find_limit(caps: &Vec<(Option<String>, Option<String>, Option<String>)>, name: &str) -> (r: u64)
    ensures
        r == limit_of(caps.deep_view(), name@),
{
    let key = chars_of(name);
    let ghost all = caps.deep_view();
    let mut i: usize = caps.len();
    assert(all.take(all.len() as int) =~= all);
    while i > 0
        invariant
            i <= caps.len() == all.len(),
            all == caps.deep_view(),
            key@ == name@,
            limit_of(all, name@) == limit_of(all.take(i as int), name@),
        decreases i,
    {
        assert(all.take(i as int).drop_last() =~= all.take(i - 1));
        assert(all.take(i as int).last() == caps@[i - 1].deep_view());
        if names(&caps[i - 1], &key) {
            return soft_limit(&caps[i - 1].1);
        }
        i -= 1;
    }
    0
}

/// The soft limit of each resource of a process.
#[derive(Debug, Clone)]
pub struct ProcessLimits {
    pub cpu_time: u64,
    pub file_size: u64,
    pub data_size: u64,
    pub stack_size: u64,
    pub core_file_size: u64,
    pub resident_set: u64,
    pub processes: u64,
    pub open_files: u64,
    pub locked_memory: u64,
    pub address_space: u64,
    pub file_locks: u64,
    pub pending_signals: u64,
    pub msgqueue_size: u64,
    pub nice_priority: u64,
    pub realtime_priority: u64,
    pub realtime_timeout: u64,
}

impl ProcessLimits {
    /// Each limit is what the captures give its resource.
    pub open spec fn read_from(&self, caps: Seq<Groups>) -> bool {
        self.cpu_time == limit_of(caps, "Max cpu time"@)
            && self.file_size == limit_of(caps, "Max file size"@)
            && self.data_size == limit_of(caps, "Max data size"@)
            && self.stack_size == limit_of(caps, "Max stack size"@)
            && self.core_file_size == limit_of(caps, "Max core file size"@)
            && self.resident_set == limit_of(caps, "Max resident set"@)
            && self.processes == limit_of(caps, "Max processes"@)
            && self.open_files == limit_of(caps, "Max open files"@)
            && self.locked_memory == limit_of(caps, "Max locked memory"@)
            && self.address_space == limit_of(caps, "Max address space"@)
            && self.file_locks == limit_of(caps, "Max file locks"@)
            && self.pending_signals == limit_of(caps, "Max pending signals"@)
            && self.msgqueue_size == limit_of(caps, "Max msgqueue size"@)
            && self.nice_priority == limit_of(caps, "Max nice priority"@)
            && self.realtime_priority == limit_of(caps, "Max realtime priority"@)
            && self.realtime_timeout == limit_of(caps, "Max realtime timeout"@)
    }

    pub fn new() -> (r: Self)
        ensures
            r.cpu_time == 0,
            r.file_size == 0,
            r.data_size == 0,
            r.stack_size == 0,
            r.core_file_size == 0,
            r.resident_set == 0,
            r.processes == 0,
            r.open_files == 0,
            r.locked_memory == 0,
            r.address_space == 0,
            r.file_locks == 0,
            r.pending_signals == 0,
            r.msgqueue_size == 0,
            r.nice_priority == 0,
            r.realtime_priority == 0,
            r.realtime_timeout == 0,
    {
        ProcessLimits {
            cpu_time: 0,
            file_size: 0,
            data_size: 0,
            stack_size: 0,
            core_file_size: 0,
            resident_set: 0,
            processes: 0,
            open_files: 0,
            locked_memory: 0,
            address_space: 0,
            file_locks: 0,
            pending_signals: 0,
            msgqueue_size: 0,
            nice_priority: 0,
            realtime_priority: 0,
            realtime_timeout: 0,
        }
    }

    /// The limits that the captures of the table's lines give.
    pub fn from_captures(caps: &Vec<(Option<String>, Option<String>, Option<String>)>) -> (r: Self)
        ensures
            r.read_from(caps.deep_view()),
    {
        ProcessLimits {
            cpu_time: find_limit(caps, "Max cpu time"),
            file_size: find_limit(caps, "Max file size"),
            data_size: find_limit(caps, "Max data size"),
            stack_size: find_limit(caps, "Max stack size"),
            core_file_size: find_limit(caps, "Max core file size"),
            resident_set: find_limit(caps, "Max resident set"),
            processes: find_limit(caps, "Max processes"),
            open_files: find_limit(caps, "Max open files"),
            locked_memory: find_limit(caps, "Max locked memory"),
            address_space: find_limit(caps, "Max address space"),
            file_locks: find_limit(caps, "Max file locks"),
            pending_signals: find_limit(caps, "Max pending signals"),
            msgqueue_size: find_limit(caps, "Max msgqueue size"),
            nice_priority: find_limit(caps, "Max nice priority"),
            realtime_priority: find_limit(caps, "Max realtime priority"),
            realtime_timeout: find_limit(caps, "Max realtime timeout"),
        }
    }

    /// The limits of `/proc/<pid>/limits`, given as its lines.
    pub fn parse(lines: &Vec<String>) -> (r: Result<Self, MetricError>)
        ensures
            regex_compiles(LIMIT_LINE_PATTERN@) ==> r is Ok,
            r is Err ==> r->Err_0 is RegexError,
            r is Ok ==> r->Ok_0.read_from(limit_captures(lines.deep_view())),
    {
        let ghost all = lines.deep_view();
        let header = chars_of("Limit");
        let mut caps: Vec<(Option<String>, Option<String>, Option<String>)> = Vec::new();
        let mut i: usize = 0;
        assert(all.take(0) =~= Seq::<Seq<char>>::empty());
        while i < lines.len()
            invariant
                i <= lines.len(),
                all == lines.deep_view(),
                header@ == "Limit"@,
                caps.deep_view() == limit_captures(all.take(i as int)),
            decreases lines.len() - i,
        {
            let line = chars_of(lines[i].as_str());
            assert(all.take(i + 1).drop_last() =~= all.take(i as int));
            assert(all.take(i + 1).last() == line@);
            proof {
                reveal_strlit("Limit");
            }
            if !starts_with(&line, &header) {
                let mut found = groups(LIMIT_LINE_PATTERN, lines[i].as_str())?;
                let ghost before = caps.deep_view();
                let ghost more = found.deep_view();
                caps.append(&mut found);
                assert(caps.deep_view() =~= before + more);
            }
            i += 1;
        }
        assert(all.take(lines.len() as int) =~= all);
        Ok(Self::from_captures(&caps))
    }
}

} // verus!
