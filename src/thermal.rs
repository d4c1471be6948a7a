//! Thermal zones and cooling devices of `/sys/class/thermal`.
use vstd::prelude::*;
use crate::attrs::{attr_i64, attr_i64_ok, attr_text, attr_text_or_empty, attr_u64, attr_u64_ok, read_i64, read_text, read_text_or_empty, read_u64};
use crate::error::MetricError;
use crate::kv::PairView;
use crate::text::{chars_eq, chars_of};

verus! {

/// A zone's `mode`: `enabled` is on, `disabled` is off, anything else unknown.
pub open spec fn switch_state(text: Option<Seq<char>>) -> Option<bool> {
    match text {
        Some(t) => if t == "enabled"@ {
            Some(true)
        } else if t == "disabled"@ {
            Some(false)
        } else {
            None
        },
        None => None,
    }
}

/// The state that attribute `name` gives a switch.
pub fn read_switch(attrs: &Vec<(String, String)>, name: &str) -> (r: Option<bool>)
    ensures
        r == switch_state(attr_text(attrs.deep_view(), name@)),
{
    match read_text(attrs, name) {
        Some(t) => {
            let c = chars_of(t.as_str());
            if chars_eq(&c, &chars_of("enabled")) {
                Some(true)
            } else if chars_eq(&c, &chars_of("disabled")) {
                Some(false)
            } else {
                None
            }
        },
        None => None,
    }
}

/// A cooling device.
#[derive(Debug, Clone)]
pub struct Cooling {
    pub name: String,
    pub cooling_type: String,
    pub max_state: i64,
    pub cur_state: i64,
}

impl Cooling {
    /// Each field holds what the attribute files give it.
    pub open spec fn read_from(&self, name: Seq<char>, attrs: Seq<PairView>) -> bool {
        self.name@ == name
            && self.cooling_type@ == attr_text_or_empty(attrs, "type"@)
            && self.max_state == (match attr_i64(attrs, "max_state"@) { Some(v) => v, None => 0 })
            && self.cur_state == (match attr_i64(attrs, "cur_state"@) { Some(v) => v, None => 0 })
    }

    /// Every numeric attribute that is given parses.
    pub open spec fn readable(attrs: Seq<PairView>) -> bool {
        attr_i64_ok(attrs, "max_state"@)
            && attr_i64_ok(attrs, "cur_state"@)
    }

    /// Every field empty.
    pub open spec fn is_blank(&self) -> bool {
        self.name@.len() == 0
            && self.cooling_type@.len() == 0
            && self.max_state == 0
            && self.cur_state == 0
    }

    pub fn new() -> (r: Self)
        ensures
            r.is_blank(),
    {
        Cooling {
            name: String::new(),
            cooling_type: String::new(),
            max_state: 0,
            cur_state: 0,
        }
    }

    /// The device `name` whose attribute files are `attrs`.
    pub fn from_attrs(name: String, attrs: &Vec<(String, String)>) -> (r: Result<Self, MetricError>)
        ensures
            r is Ok <==> Self::readable(attrs.deep_view()),
            r is Ok ==> r->Ok_0.read_from(name@, attrs.deep_view()),
    {
        let max_state = match read_i64(attrs, "max_state") {
            Ok(Some(v)) => v,
            Ok(None) => 0,
            Err(e) => return Err(e),
        };
        let cur_state = match read_i64(attrs, "cur_state") {
            Ok(Some(v)) => v,
            Ok(None) => 0,
            Err(e) => return Err(e),
        };
        Ok(Cooling {
            name: name,
            cooling_type: read_text_or_empty(attrs, "type"),
            max_state,
            cur_state,
        })
    }
}

/// A thermal zone.
#[derive(Debug, Clone)]
pub struct ThermalZone {
    pub name: String,
    pub zone_type: String,
    pub policy: String,
    pub temp: i64,
    pub mode: Option<bool>,
    pub passive: Option<u64>,
}

impl ThermalZone {
    /// Each field holds what the attribute files give it.
    pub open spec fn read_from(&self, name: Seq<char>, attrs: Seq<PairView>) -> bool {
        self.name@ == name
            && self.zone_type@ == attr_text_or_empty(attrs, "type"@)
            && self.policy@ == attr_text_or_empty(attrs, "policy"@)
            && self.temp == (match attr_i64(attrs, "temp"@) { Some(v) => v, None => 0 })
            && self.mode == switch_state(attr_text(attrs, "mode"@))
            && self.passive == attr_u64(attrs, "passive"@)
    }

    /// Every numeric attribute that is given parses.
    pub open spec fn readable(attrs: Seq<PairView>) -> bool {
        attr_i64_ok(attrs, "temp"@)
            && attr_u64_ok(attrs, "passive"@)
    }

    /// Every field empty.
    pub open spec fn is_blank(&self) -> bool {
        self.name@.len() == 0
            && self.zone_type@.len() == 0
            && self.policy@.len() == 0
            && self.temp == 0
            && self.mode is None
            && self.passive is None
    }

    pub fn new() -> (r: Self)
        ensures
            r.is_blank(),
    {
        ThermalZone {
            name: String::new(),
            zone_type: String::new(),
            policy: String::new(),
            temp: 0,
            mode: None,
            passive: None,
        }
    }

    /// The zone `name` whose attribute files are `attrs`.
    pub fn from_attrs(name: String, attrs: &Vec<(String, String)>) -> (r: Result<Self, MetricError>)
        ensures
            r is Ok <==> Self::readable(attrs.deep_view()),
            r is Ok ==> r->Ok_0.read_from(name@, attrs.deep_view()),
    {
        let temp = match read_i64(attrs, "temp") {
            Ok(Some(v)) => v,
            Ok(None) => 0,
            Err(e) => return Err(e),
        };
        let passive = match read_u64(attrs, "passive") {
            Ok(v) => v,
            Err(e) => return Err(e),
        };
        Ok(ThermalZone {
            name: name,
            zone_type: read_text_or_empty(attrs, "type"),
            policy: read_text_or_empty(attrs, "policy"),
            temp,
            mode: read_switch(attrs, "mode"),
            passive,
        })
    }
}

} // verus!
