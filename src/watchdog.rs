//! Watchdog devices of `/sys/class/watchdog`.
use vstd::prelude::*;
use crate::attrs::{attr_i64, attr_i64_ok, attr_text, read_i64, read_text};
use crate::error::MetricError;
use crate::kv::PairView;

verus! {


/// A watchdog device.
#[derive(Debug, Clone)]
pub struct Watchdog {
    pub name: String,
    pub boot_status: Option<i64>,
    pub options: Option<String>,
    pub fw_version: Option<i64>,
    pub identity: Option<String>,
    pub nowayout: Option<i64>,
    pub state: Option<String>,
    pub status: Option<String>,
    pub timeleft: Option<i64>,
    pub timeout: Option<i64>,
    pub min_timeout: Option<i64>,
    pub max_timeout: Option<i64>,
    pub pretimeout: Option<i64>,
    pub pretimeout_governor: Option<String>,
    pub access_cs0: Option<i64>,
}

impl Watchdog {
    /// Each field holds what the attribute files give it.
    pub open spec fn read_from(&self, name: Seq<char>, attrs: Seq<PairView>) -> bool {
        self.name@ == name
            && self.boot_status == attr_i64(attrs, "bootstatus"@)
            && self.options.deep_view() == attr_text(attrs, "options"@)
            && self.fw_version == attr_i64(attrs, "fw_version"@)
            && self.identity.deep_view() == attr_text(attrs, "identity"@)
            && self.nowayout == attr_i64(attrs, "nowayout"@)
            && self.state.deep_view() == attr_text(attrs, "state"@)
            && self.status.deep_view() == attr_text(attrs, "status"@)
            && self.timeleft == attr_i64(attrs, "timeleft"@)
            && self.timeout == attr_i64(attrs, "timeout"@)
            && self.min_timeout == attr_i64(attrs, "min_timeout"@)
            && self.max_timeout == attr_i64(attrs, "max_timeout"@)
            && self.pretimeout == attr_i64(attrs, "pretimeout"@)
            && self.pretimeout_governor.deep_view() == attr_text(attrs, "pretimeout_governor"@)
            && self.access_cs0 == attr_i64(attrs, "access_cs0"@)
    }

    /// Every numeric attribute that is given parses.
    pub open spec fn readable(attrs: Seq<PairView>) -> bool {
        attr_i64_ok(attrs, "bootstatus"@)
            && attr_i64_ok(attrs, "fw_version"@)
            && attr_i64_ok(attrs, "nowayout"@)
            && attr_i64_ok(attrs, "timeleft"@)
            && attr_i64_ok(attrs, "timeout"@)
            && attr_i64_ok(attrs, "min_timeout"@)
            && attr_i64_ok(attrs, "max_timeout"@)
            && attr_i64_ok(attrs, "pretimeout"@)
            && attr_i64_ok(attrs, "access_cs0"@)
    }

    /// Every field empty.
    pub open spec fn is_blank(&self) -> bool {
        self.name@.len() == 0
            && self.boot_status is None
            && self.options is None
            && self.fw_version is None
            && self.identity is None
            && self.nowayout is None
            && self.state is None
            && self.status is None
            && self.timeleft is None
            && self.timeout is None
            && self.min_timeout is None
            && self.max_timeout is None
            && self.pretimeout is None
            && self.pretimeout_governor is None
            && self.access_cs0 is None
    }

    pub fn new() -> (r: Self)
        ensures
            r.is_blank(),
    {
        Watchdog {
            name: String::new(),
            boot_status: None,
            options: None,
            fw_version: None,
            identity: None,
            nowayout: None,
            state: None,
            status: None,
            timeleft: None,
            timeout: None,
            min_timeout: None,
            max_timeout: None,
            pretimeout: None,
            pretimeout_governor: None,
            access_cs0: None,
        }
    }

    /// The device `name` whose attribute files are `attrs`.
    pub fn from_attrs(name: String, attrs: &Vec<(String, String)>) -> (r: Result<Self, MetricError>)
        ensures
            r is Ok <==> Self::readable(attrs.deep_view()),
            r is Ok ==> r->Ok_0.read_from(name@, attrs.deep_view()),
    {
        let boot_status = match read_i64(attrs, "bootstatus") {
            Ok(v) => v,
            Err(e) => return Err(e),
        };
        let fw_version = match read_i64(attrs, "fw_version") {
            Ok(v) => v,
            Err(e) => return Err(e),
        };
        let nowayout = match read_i64(attrs, "nowayout") {
            Ok(v) => v,
            Err(e) => return Err(e),
        };
        let timeleft = match read_i64(attrs, "timeleft") {
            Ok(v) => v,
            Err(e) => return Err(e),
        };
        let timeout = match read_i64(attrs, "timeout") {
            Ok(v) => v,
            Err(e) => return Err(e),
        };
        let min_timeout = match read_i64(attrs, "min_timeout") {
            Ok(v) => v,
            Err(e) => return Err(e),
        };
        let max_timeout = match read_i64(attrs, "max_timeout") {
            Ok(v) => v,
            Err(e) => return Err(e),
        };
        let pretimeout = match read_i64(attrs, "pretimeout") {
            Ok(v) => v,
            Err(e) => return Err(e),
        };
        let access_cs0 = match read_i64(attrs, "access_cs0") {
            Ok(v) => v,
            Err(e) => return Err(e),
        };
        Ok(Watchdog {
            name: name,
            boot_status,
            options: read_text(attrs, "options"),
            fw_version,
            identity: read_text(attrs, "identity"),
            nowayout,
            state: read_text(attrs, "state"),
            status: read_text(attrs, "status"),
            timeleft,
            timeout,
            min_timeout,
            max_timeout,
            pretimeout,
            pretimeout_governor: read_text(attrs, "pretimeout_governor"),
            access_cs0,
        })
    }
}

} // verus!
