//! Statistics of SCSI tape drives, `/sys/class/scsi_tape/<name>/stats`.
use vstd::prelude::*;
use crate::attrs::{attr_u64, attr_u64_ok, read_u64};
use crate::error::MetricError;
use crate::kv::PairView;

verus! {


/// The counters of one tape device.
#[derive(Debug, Clone)]
pub struct ScsiTapeCounters {
    pub write_ns: u64,
    pub read_byte_cnt: u64,
    pub io_ns: u64,
    pub write_cnt: u64,
    pub resid_cnt: u64,
    pub read_ns: u64,
    pub in_flight: u64,
    pub other_cnt: u64,
    pub read_cnt: u64,
    pub write_byte_cnt: u64,
}

impl ScsiTapeCounters {
    /// Each field holds what the attribute files give it.
    pub open spec fn read_from(&self, attrs: Seq<PairView>) -> bool {
        self.write_ns == (match attr_u64(attrs, "write_ns"@) { Some(v) => v, None => 0 })
            && self.read_byte_cnt == (match attr_u64(attrs, "read_byte_cnt"@) { Some(v) => v, None => 0 })
            && self.io_ns == (match attr_u64(attrs, "io_ns"@) { Some(v) => v, None => 0 })
            && self.write_cnt == (match attr_u64(attrs, "write_cnt"@) { Some(v) => v, None => 0 })
            && self.resid_cnt == (match attr_u64(attrs, "resid_cnt"@) { Some(v) => v, None => 0 })
            && self.read_ns == (match attr_u64(attrs, "read_ns"@) { Some(v) => v, None => 0 })
            && self.in_flight == (match attr_u64(attrs, "in_flight"@) { Some(v) => v, None => 0 })
            && self.other_cnt == (match attr_u64(attrs, "other_cnt"@) { Some(v) => v, None => 0 })
            && self.read_cnt == (match attr_u64(attrs, "read_cnt"@) { Some(v) => v, None => 0 })
            && self.write_byte_cnt == (match attr_u64(attrs, "write_byte_cnt"@) { Some(v) => v, None => 0 })
    }

    /// Every numeric attribute that is given parses.
    pub open spec fn readable(attrs: Seq<PairView>) -> bool {
        attr_u64_ok(attrs, "write_ns"@)
            && attr_u64_ok(attrs, "read_byte_cnt"@)
            && attr_u64_ok(attrs, "io_ns"@)
            && attr_u64_ok(attrs, "write_cnt"@)
            && attr_u64_ok(attrs, "resid_cnt"@)
            && attr_u64_ok(attrs, "read_ns"@)
            && attr_u64_ok(attrs, "in_flight"@)
            && attr_u64_ok(attrs, "other_cnt"@)
            && attr_u64_ok(attrs, "read_cnt"@)
            && attr_u64_ok(attrs, "write_byte_cnt"@)
    }

    /// Every field empty.
    pub open spec fn is_blank(&self) -> bool {
        self.write_ns == 0
            && self.read_byte_cnt == 0
            && self.io_ns == 0
            && self.write_cnt == 0
            && self.resid_cnt == 0
            && self.read_ns == 0
            && self.in_flight == 0
            && self.other_cnt == 0
            && self.read_cnt == 0
            && self.write_byte_cnt == 0
    }

    pub fn new() -> (r: Self)
        ensures
            r.is_blank(),
    {
        ScsiTapeCounters {
            write_ns: 0,
            read_byte_cnt: 0,
            io_ns: 0,
            write_cnt: 0,
            resid_cnt: 0,
            read_ns: 0,
            in_flight: 0,
            other_cnt: 0,
            read_cnt: 0,
            write_byte_cnt: 0,
        }
    }

    /// The counters whose files are `attrs`.
    pub fn from_attrs(attrs: &Vec<(String, String)>) -> (r: Result<Self, MetricError>)
        ensures
            r is Ok <==> Self::readable(attrs.deep_view()),
            r is Ok ==> r->Ok_0.read_from(attrs.deep_view()),
    {
        let write_ns = match read_u64(attrs, "write_ns") {
            Ok(Some(v)) => v,
            Ok(None) => 0,
            Err(e) => return Err(e),
        };
        let read_byte_cnt = match read_u64(attrs, "read_byte_cnt") {
            Ok(Some(v)) => v,
            Ok(None) => 0,
            Err(e) => return Err(e),
        };
        let io_ns = match read_u64(attrs, "io_ns") {
            Ok(Some(v)) => v,
            Ok(None) => 0,
            Err(e) => return Err(e),
        };
        let write_cnt = match read_u64(attrs, "write_cnt") {
            Ok(Some(v)) => v,
            Ok(None) => 0,
            Err(e) => return Err(e),
        };
        let resid_cnt = match read_u64(attrs, "resid_cnt") {
            Ok(Some(v)) => v,
            Ok(None) => 0,
            Err(e) => return Err(e),
        };
        let read_ns = match read_u64(attrs, "read_ns") {
            Ok(Some(v)) => v,
            Ok(None) => 0,
            Err(e) => return Err(e),
        };
        let in_flight = match read_u64(attrs, "in_flight") {
            Ok(Some(v)) => v,
            Ok(None) => 0,
            Err(e) => return Err(e),
        };
        let other_cnt = match read_u64(attrs, "other_cnt") {
            Ok(Some(v)) => v,
            Ok(None) => 0,
            Err(e) => return Err(e),
        };
        let read_cnt = match read_u64(attrs, "read_cnt") {
            Ok(Some(v)) => v,
            Ok(None) => 0,
            Err(e) => return Err(e),
        };
        let write_byte_cnt = match read_u64(attrs, "write_byte_cnt") {
            Ok(Some(v)) => v,
            Ok(None) => 0,
            Err(e) => return Err(e),
        };
        Ok(ScsiTapeCounters {
            write_ns,
            read_byte_cnt,
            io_ns,
            write_cnt,
            resid_cnt,
            read_ns,
            in_flight,
            other_cnt,
            read_cnt,
            write_byte_cnt,
        })
    }
}

} // verus!
