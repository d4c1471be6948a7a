//! The random number generator of `/proc/sys/kernel/random`.
use vstd::prelude::*;
use crate::attrs::{attr_u64, attr_u64_ok, read_u64};
use crate::error::MetricError;
use crate::kv::PairView;

verus! {


/// The entropy pool and its thresholds.
#[derive(Debug, Clone)]
pub struct KernelRandom {
    pub entropy_available: Option<u64>,
    pub pool_size: Option<u64>,
    pub urandom_min_reseed_secs: Option<u64>,
    pub write_wakeup_threshold: Option<u64>,
    pub read_wakeup_threshold: Option<u64>,
}

impl KernelRandom {
    /// Each field holds what the attribute files give it.
    pub open spec fn read_from(&self, attrs: Seq<PairView>) -> bool {
        self.entropy_available == attr_u64(attrs, "entropy_avail"@)
            && self.pool_size == attr_u64(attrs, "poolsize"@)
            && self.urandom_min_reseed_secs == attr_u64(attrs, "urandom_min_reseed_secs"@)
            && self.write_wakeup_threshold == attr_u64(attrs, "write_wakeup_threshold"@)
            && self.read_wakeup_threshold == attr_u64(attrs, "read_wakeup_threshold"@)
    }

    /// Every numeric attribute that is given parses.
    pub open spec fn readable(attrs: Seq<PairView>) -> bool {
        attr_u64_ok(attrs, "entropy_avail"@)
            && attr_u64_ok(attrs, "poolsize"@)
            && attr_u64_ok(attrs, "urandom_min_reseed_secs"@)
            && attr_u64_ok(attrs, "write_wakeup_threshold"@)
            && attr_u64_ok(attrs, "read_wakeup_threshold"@)
    }

    /// Every field empty.
    pub open spec fn is_blank(&self) -> bool {
        self.entropy_available is None
            && self.pool_size is None
            && self.urandom_min_reseed_secs is None
            && self.write_wakeup_threshold is None
            && self.read_wakeup_threshold is None
    }

    pub fn new() -> (r: Self)
        ensures
            r.is_blank(),
    {
        KernelRandom {
            entropy_available: None,
            pool_size: None,
            urandom_min_reseed_secs: None,
            write_wakeup_threshold: None,
            read_wakeup_threshold: None,
        }
    }

    /// The generator whose files are `attrs`.
    pub fn from_attrs(attrs: &Vec<(String, String)>) -> (r: Result<Self, MetricError>)
        ensures
            r is Ok <==> Self::readable(attrs.deep_view()),
            r is Ok ==> r->Ok_0.read_from(attrs.deep_view()),
    {
        let entropy_available = match read_u64(attrs, "entropy_avail") {
            Ok(v) => v,
            Err(e) => return Err(e),
        };
        let pool_size = match read_u64(attrs, "poolsize") {
            Ok(v) => v,
            Err(e) => return Err(e),
        };
        let urandom_min_reseed_secs = match read_u64(attrs, "urandom_min_reseed_secs") {
            Ok(v) => v,
            Err(e) => return Err(e),
        };
        let write_wakeup_threshold = match read_u64(attrs, "write_wakeup_threshold") {
            Ok(v) => v,
            Err(e) => return Err(e),
        };
        let read_wakeup_threshold = match read_u64(attrs, "read_wakeup_threshold") {
            Ok(v) => v,
            Err(e) => return Err(e),
        };
        Ok(KernelRandom {
            entropy_available,
            pool_size,
            urandom_min_reseed_secs,
            write_wakeup_threshold,
            read_wakeup_threshold,
        })
    }
}

} // verus!
