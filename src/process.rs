//! A process under `/proc/<pid>` and the decoding of its small text files:
//! `comm`, `wchan`, `cmdline`, `environ`, `cgroup` and the `ns` links.
use vstd::prelude::*;
use crate::error::MetricError;
use crate::text::{
    chars_of, decimal_text, fields, parse_u32, parse_usize, pieces, push_decimal, push_str,
    split_all, split_trimmed, strings_of, strip_bounds, strip_end_bound, stripped,
    stripped_end, string_of, trim, trim_bounds, trimmed, u32_of, usize_of,
};

verus! {

/// A running process: its pid and its directory under the proc file system.
#[derive(Debug)]
pub struct Process {
    id: usize,
    path: String,
}

impl View for Process {
    type V = (usize, Seq<char>);

    closed spec fn view(&self) -> (usize, Seq<char>) {
        (self.id, self.path@)
    }
}

/// `base` joined with the relative path `name` as a path is pushed: a
/// separator goes between them unless `base` is empty or already ends in one.
pub open spec fn joined(base: Seq<char>, name: Seq<char>) -> Seq<char> {
    if base.len() == 0 || base.last() == '/' {
        base + name
    } else {
        base + seq!['/'] + name
    }
}

/// The directory of process `pid` under `base`: `base` joined with the pid.
pub open spec fn process_dir(base: Seq<char>, pid: nat) -> Seq<char> {
    joined(base, decimal_text(pid))
}

/// The text of `comm`: the file's content trimmed.
pub open spec fn comm_text(content: Seq<char>) -> Seq<char> {
    trimmed(content)
}

/// The text of `wchan`: the file's content trimmed, empty where it is `0`.
pub open spec fn wchan_text(content: Seq<char>) -> Seq<char> {
    if trimmed(content) == seq!['0'] {
        Seq::empty()
    } else {
        trimmed(content)
    }
}

/// The items of a NUL-separated file such as `cmdline`: the content trimmed,
/// without its final NULs, split at each NUL.
pub open spec fn nul_items(content: Seq<char>) -> Seq<Seq<char>> {
    fields(stripped_end(trimmed(content), '\0'), '\0')
}

impl Process {
    pub fn new(id: usize, path: String) -> (r: Self)
        ensures
            r@ == (id, path@),
    {
        Process { id, path }
    }

    pub fn pid(&self) -> (r: usize)
        ensures
            r == self@.0,
    {
        self.id
    }

    pub fn path(&self) -> (r: String)
        ensures
            r@ == self@.1,
    {
        self.path.clone()
    }

    /// The process `pid` found under `base`, where its directory exists.
    pub fn found(base: &str, pid: usize, is_dir: bool) -> (r: Result<Process, MetricError>)
        ensures
            is_dir ==> r is Ok && r->Ok_0@ == (pid, process_dir(base@, pid as nat)),
            !is_dir ==> r == Err::<Process, MetricError>(MetricError::ProcessNotFound(pid)),
    {
        if !is_dir {
            return Err(MetricError::ProcessNotFound(pid));
        }
        Ok(Process::new(pid, dir_of(base, pid)))
    }

    /// The command name, from the content of `comm`.
    pub fn comm_from(content: &str) -> (r: String)
        ensures
            r@ == comm_text(content@),
    {
        string_of(&trim(&chars_of(content)))
    }

    /// The kernel function the process waits in, from the content of `wchan`.
    pub fn wchan_from(content: &str) -> (r: String)
        ensures
            r@ == wchan_text(content@),
    {
        let t = trim(&chars_of(content));
        if t.len() == 1 && t[0] == '0' {
            assert(t@ =~= seq!['0']);
            return String::new();
        }
        proof {
            if t@ == seq!['0'] {
                assert(t@.len() == 1 && t@[0] == '0');
            }
        }
        string_of(&t)
    }

    /// The items of `cmdline` or `environ`, from the file's content.
    pub fn nul_separated(content: &str) -> (r: Vec<String>)
        ensures
            r.deep_view() == nul_items(content@),
    {
        let t = trim(&chars_of(content));
        let end = strip_end_bound(&t, '\0');
        assert(t@.subrange(0, end as int) == stripped_end(t@, '\0'));
        strings_of(&split_all(&t, 0, end, '\0'))
    }
}

/// The directory of process `pid` under `base`.
pub fn dir_of(base: &str, pid: usize) -> (r: String)
    ensures
        r@ == process_dir(base@, pid as nat),
{
    let mut out: Vec<char> = Vec::new();
    push_str(base, &mut out);
    if out.len() > 0 && out[out.len() - 1] != '/' {
        out.push('/');
    }
    push_decimal(pid as u64, &mut out);
    assert(out@ =~= process_dir(base@, pid as nat));
    string_of(&out)
}

/// The pid that a directory name under `/proc` writes, if it is a number.
pub fn pid_of(name: &str) -> (r: Option<usize>)
    ensures
        r == usize_of(name@),
{
    parse_usize(&chars_of(name))
}

/// One line of `/proc/<pid>/cgroup`.
#[derive(Debug, Clone)]
pub struct ProcessCgroup {
    pub hierarchy_id: usize,
    pub controllers: Vec<String>,
    pub path: String,
}

pub type CgroupView = (usize, Seq<Seq<char>>, Seq<char>);

impl View for ProcessCgroup {
    type V = CgroupView;

    open spec fn view(&self) -> CgroupView {
        (self.hierarchy_id, self.controllers.deep_view(), self.path@)
    }
}

/// The cgroup that a line `id:controllers:path` describes: the line trimmed
/// must hold exactly two colons and a decimal id; the controllers are the
/// comma-separated list, none where it is blank; the path is trimmed.
pub open spec fn cgroup_of(line: Seq<char>) -> Option<CgroupView> {
    let f = fields(trimmed(line), ':');
    if f.len() != 3 {
        None
    } else {
        match usize_of(f[0]) {
            None => None,
            Some(id) => Some(
                (
                    id,
                    if trimmed(f[1]).len() == 0 {
                        Seq::empty()
                    } else {
                        fields(trimmed(f[1]), ',')
                    },
                    trimmed(f[2]),
                ),
            ),
        }
    }
}

/// The error that a line which is not a cgroup gets: `InvalidFieldNumberError`
/// with the field count where the line does not have three fields, else
/// `ParseIntError` naming the id that is not a number.
pub open spec fn cgroup_error_fits(line: Seq<char>, e: MetricError) -> bool {
    let f = fields(trimmed(line), ':');
    if f.len() != 3 {
        match e {
            MetricError::InvalidFieldNumberError(_, n, _) => n == f.len(),
            _ => false,
        }
    } else {
        match e {
            MetricError::ParseIntError(item, _) => item@ == f[0],
            _ => false,
        }
    }
}

/// The cgroups of all lines; `None` where a line is not one.
pub open spec fn cgroups_of(lines: Seq<Seq<char>>) -> Option<Seq<CgroupView>>
    decreases lines.len(),
{
    if lines.len() == 0 {
        Some(Seq::empty())
    } else {
        match cgroups_of(lines.drop_last()) {
            None => None,
            Some(t) => match cgroup_of(lines.last()) {
                None => None,
                Some(c) => Some(t.push(c)),
            },
        }
    }
}

impl ProcessCgroup {
    pub fn new() -> (r: Self)
        ensures
            r@ == (0usize, Seq::<Seq<char>>::empty(), Seq::<char>::empty()),
    {
        let r = ProcessCgroup { hierarchy_id: 0, controllers: Vec::new(), path: String::new() };
        assert(r.controllers.deep_view() =~= Seq::<Seq<char>>::empty());
        r
    }

    /// The cgroup that one line of the file describes.
    pub fn from_line(line: &str) -> (r: Result<ProcessCgroup, MetricError>)
        ensures
            match cgroup_of(line@) {
                Some(v) => r is Ok && r->Ok_0@ == v,
                None => r is Err && cgroup_error_fits(line@, r->Err_0),
            },
    {
        let c = chars_of(line);
        let (a, b) = trim_bounds(&c);
        let f = split_all(&c, a, b, ':');
        assert(f.deep_view().len() == f.len());
        if f.len() != 3 {
            return Err(
                MetricError::InvalidFieldNumberError(
                    string_of(&chars_of("process cgroup")),
                    f.len(),
                    string_of(&c),
                ),
            );
        }
        assert(f.deep_view()[0] == f@[0]@ && f.deep_view()[1] == f@[1]@ && f.deep_view()[2]
            == f@[2]@);
        let id = match parse_usize(&f[0]) {
            Some(v) => v,
            None => {
                return Err(MetricError::ParseIntError(string_of(&f[0]), string_of(&f[0])));
            },
        };
        let list = trim(&f[1]);
        let controllers = if list.len() == 0 {
            let v: Vec<String> = Vec::new();
            assert(v.deep_view() =~= Seq::<Seq<char>>::empty());
            v
        } else {
            assert(list@.subrange(0, list.len() as int) =~= list@);
            strings_of(&split_all(&list, 0, list.len(), ','))
        };
        let path = string_of(&trim(&f[2]));
        Ok(ProcessCgroup { hierarchy_id: id, controllers, path })
    }

    /// The cgroups of `/proc/<pid>/cgroup`, given as its lines.
    pub fn parse_all(lines: &Vec<String>) -> (r: Result<Vec<ProcessCgroup>, MetricError>)
        ensures
            match cgroups_of(lines.deep_view()) {
                Some(cs) => r is Ok && r->Ok_0@.map_values(|c: ProcessCgroup| c@) == cs,
                None => r is Err,
            },
            r is Err ==> exists|i: int|
                0 <= i < lines.len() && cgroups_of(lines.deep_view().take(i)) is Some
                    && #[trigger] cgroup_of(lines@[i]@) is None && cgroup_error_fits(lines@[i]@, r->Err_0),
    {
        let ghost all = lines.deep_view();
        let mut out: Vec<ProcessCgroup> = Vec::new();
        let mut i: usize = 0;
        assert(all.take(0) =~= Seq::<Seq<char>>::empty());
        while i < lines.len()
            invariant
                i <= lines.len(),
                all == lines.deep_view(),
                cgroups_of(all.take(i as int)) == Some(out@.map_values(|c: ProcessCgroup| c@)),
            decreases lines.len() - i,
        {
            assert(all.take(i + 1).drop_last() =~= all.take(i as int));
            assert(all.take(i + 1).last() == lines@[i as int]@);
            let ghost before = out@;
            match ProcessCgroup::from_line(lines[i].as_str()) {
                Ok(c) => {
                    out.push(c);
                    assert(out@.map_values(|c: ProcessCgroup| c@) =~= before.map_values(
                        |c: ProcessCgroup| c@,
                    ).push(c@));
                },
                Err(e) => {
                    proof {
                        lemma_cgroups_prefix_none(all, i as int + 1);
                        assert(cgroup_of(lines@[i as int]@) is None);
                    }
                    return Err(e);
                },
            }
            i += 1;
        }
        assert(all.take(lines.len() as int) =~= all);
        Ok(out)
    }
}

proof fn lemma_cgroups_prefix_none(lines: Seq<Seq<char>>, k: int)
    requires
        0 <= k <= lines.len(),
        cgroups_of(lines.take(k)) is None,
    ensures
        cgroups_of(lines) is None,
    decreases lines.len() - k,
{
    if k < lines.len() {
        assert(lines.take(k + 1).drop_last() =~= lines.take(k));
        lemma_cgroups_prefix_none(lines, k + 1);
    } else {
        assert(lines.take(k) =~= lines);
    }
}

/// One namespace of a process, from its link under `/proc/<pid>/ns`.
#[derive(Debug, Clone)]
pub struct ProcessNamespace {
    pub ns_type: String,
    pub inode: u32,
}

/// The namespace that a link text `type:[inode]` names: the text trimmed and
/// split on colons must give two pieces; the inode is the second piece without
/// its brackets, 0 where it is not a `u32`.
pub open spec fn namespace_of(link: Seq<char>) -> Option<(Seq<char>, u32)> {
    let p = pieces(trimmed(link), ':');
    if p.len() != 2 {
        None
    } else {
        Some(
            (
                trimmed(p[0]),
                match u32_of(stripped(stripped(trimmed(p[1]), '['), ']')) {
                    Some(v) => v,
                    None => 0,
                },
            ),
        )
    }
}

impl ProcessNamespace {
    pub fn new() -> (r: Self)
        ensures
            r.ns_type@ == Seq::<char>::empty(),
            r.inode == 0,
    {
        ProcessNamespace { ns_type: String::new(), inode: 0 }
    }

    /// The namespace that the target of a link under `ns` names.
    pub fn from_link(link: &str) -> (r: Result<ProcessNamespace, MetricError>)
        ensures
            match namespace_of(link@) {
                Some(v) => r is Ok && (r->Ok_0.ns_type@, r->Ok_0.inode) == v,
                None => r is Err && match r->Err_0 {
                    MetricError::InvalidFieldNumberError(_, n, _) => n == pieces(trimmed(link@), ':').len(),
                    _ => false,
                },
            },
    {
        let c = chars_of(link);
        let p = split_trimmed(&c, ':');
        if p.len() != 2 {
            return Err(
                MetricError::InvalidFieldNumberError(
                    string_of(&chars_of("process ns item")),
                    p.len(),
                    string_of(&c),
                ),
            );
        }
        assert(p.deep_view()[0] == p@[0]@ && p.deep_view()[1] == p@[1]@);
        let ns_type = string_of(&trim(&p[0]));
        let t = trim(&p[1]);
        let (a, b) = strip_bounds(&t, '[');
        let u = crate::text::slice_chars(&t, a, b);
        let (x, y) = strip_bounds(&u, ']');
        let w = crate::text::slice_chars(&u, x, y);
        let inode = match parse_u32(&w) {
            Some(v) => v,
            None => 0,
        };
        Ok(ProcessNamespace { ns_type, inode })
    }
}

} // verus!
