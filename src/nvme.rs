//! NVMe controllers of `/sys/class/nvme`.
use vstd::prelude::*;
use crate::attrs::{attr_text_or_empty, read_text_or_empty};
use crate::error::MetricError;
use crate::kv::PairView;

verus! {


/// An NVMe controller.
#[derive(Debug, Clone)]
pub struct NVMeDevice {
    pub serial: String,
    pub model: String,
    pub state: String,
    pub firmware_revision: String,
}

impl NVMeDevice {
    /// Each field holds what the attribute files give it.
    pub open spec fn read_from(&self, attrs: Seq<PairView>) -> bool {
        self.serial@ == attr_text_or_empty(attrs, "serial"@)
            && self.model@ == attr_text_or_empty(attrs, "model"@)
            && self.state@ == attr_text_or_empty(attrs, "state"@)
            && self.firmware_revision@ == attr_text_or_empty(attrs, "firmware_rev"@)
    }

    /// Every field empty.
    pub open spec fn is_blank(&self) -> bool {
        self.serial@.len() == 0
            && self.model@.len() == 0
            && self.state@.len() == 0
            && self.firmware_revision@.len() == 0
    }

    pub fn new() -> (r: Self)
        ensures
            r.is_blank(),
    {
        NVMeDevice {
            serial: String::new(),
            model: String::new(),
            state: String::new(),
            firmware_revision: String::new(),
        }
    }

    /// The controller whose attribute files are `attrs`.
    pub fn from_attrs(attrs: &Vec<(String, String)>) -> (r: Result<Self, MetricError>)
        ensures
            r is Ok,
            r->Ok_0.read_from(attrs.deep_view()),
    {
        Ok(NVMeDevice {
            serial: read_text_or_empty(attrs, "serial"),
            model: read_text_or_empty(attrs, "model"),
            state: read_text_or_empty(attrs, "state"),
            firmware_revision: read_text_or_empty(attrs, "firmware_rev"),
        })
    }
}

} // verus!
