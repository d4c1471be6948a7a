//! A process as `Proc`: a pid and its directory `/proc/<pid>/`.
use vstd::prelude::*;
use crate::error::MetricError;
use crate::text::{decimal_text, push_decimal, push_str, string_of};

verus! {

/// A running process: its pid and its directory under `/proc`.
#[derive(Debug)]
pub struct Proc {
    id: usize,
    path: String,
}

impl View for Proc {
    type V = (usize, Seq<char>);

    closed spec fn view(&self) -> (usize, Seq<char>) {
        (self.id, self.path@)
    }
}

/// The directory of process `pid`: `/proc/<pid>/`.
pub open spec fn proc_dir(pid: nat) -> Seq<char> {
    "/proc/"@ + decimal_text(pid) + seq!['/']
}

impl Proc {
    pub fn new(id: usize, path: String) -> (r: Self)
        ensures
            r@ == (id, path@),
    {
        Proc { id, path }
    }

    pub fn pid(&self) -> (r: usize)
        ensures
            r == self@.0,
    {
        self.id
    }

    pub fn path(&self) -> (r: String)
        ensures
            r@ == self@.1,
    {
        self.path.clone()
    }

    /// The process `pid`, where its directory exists.
    pub fn found(pid: usize, is_dir: bool) -> (r: Result<Proc, MetricError>)
        ensures
            is_dir ==> r is Ok && r->Ok_0@ == (pid, proc_dir(pid as nat)),
            !is_dir ==> r == Err::<Proc, MetricError>(MetricError::ProcessNotFound(pid)),
    {
        if !is_dir {
            return Err(MetricError::ProcessNotFound(pid));
        }
        Ok(Proc::new(pid, proc_dir_of(pid)))
    }
}

/// The directory `/proc/<pid>/`.
pub fn proc_dir_of(pid: usize) -> (r: String)
    ensures
        r@ == proc_dir(pid as nat),
{
    let mut out: Vec<char> = Vec::new();
    push_str("/proc/", &mut out);
    push_decimal(pid as u64, &mut out);
    out.push('/');
    assert(out@ =~= proc_dir(pid as nat));
    string_of(&out)
}

} // verus!
