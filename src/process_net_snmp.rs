//! The SNMP MIB counters of `/proc/<pid>/net/snmp`.
use vstd::prelude::*;
use crate::error::MetricError;
use crate::stat_table::{field_parses, field_value, parse_table, read_field, rows_view, table_of, RowView, StatRow};
use crate::text::chars_of;

verus! {

/// The counters of `/proc/<pid>/net/snmp`, section by section.
#[derive(Debug, Clone)]
pub struct ProcessNetSnmp {
    pub ip: Ip,
    pub icmp: Icmp,
    pub icmp_msg: IcmpMsg,
    pub tcp: Tcp,
    pub udp: Udp,
    pub upd_lite: UdpLite,
}

/// The `Ip` section.
#[derive(Debug, Clone)]
pub struct Ip {
    pub forwarding: Option<i64>,
    pub default_ttl: Option<i64>,
    pub in_receives: Option<i64>,
    pub in_hdr_errors: Option<i64>,
    pub in_addr_errors: Option<i64>,
    pub forw_datagrams: Option<i64>,
    pub in_unkown_protos: Option<i64>,
    pub in_discards: Option<i64>,
    pub in_delivers: Option<i64>,
    pub out_requests: Option<i64>,
    pub out_discards: Option<i64>,
    pub out_no_routes: Option<i64>,
    pub reasm_timeout: Option<i64>,
    pub reasm_reqds: Option<i64>,
    pub reasm_oks: Option<i64>,
    pub reasm_fails: Option<i64>,
    pub frag_oks: Option<i64>,
    pub frag_fails: Option<i64>,
    pub frag_creates: Option<i64>,
    pub out_transmits: Option<i64>,
}

impl Ip {
    /// No counter known yet.
    pub open spec fn is_blank(&self) -> bool {
        self.forwarding is None
        && self.default_ttl is None
        && self.in_receives is None
        && self.in_hdr_errors is None
        && self.in_addr_errors is None
        && self.forw_datagrams is None
        && self.in_unkown_protos is None
        && self.in_discards is None
        && self.in_delivers is None
        && self.out_requests is None
        && self.out_discards is None
        && self.out_no_routes is None
        && self.reasm_timeout is None
        && self.reasm_reqds is None
        && self.reasm_oks is None
        && self.reasm_fails is None
        && self.frag_oks is None
        && self.frag_fails is None
        && self.frag_creates is None
        && self.out_transmits is None
    }

    /// Each counter holds what the `ip` rows of the table give it.
    pub open spec fn read_from(&self, rows: Seq<RowView>) -> bool {
        self.forwarding == field_value(rows, "ip"@, "forwarding"@)
        && self.default_ttl == field_value(rows, "ip"@, "defaultttl"@)
        && self.in_receives == field_value(rows, "ip"@, "inreceives"@)
        && self.in_hdr_errors == field_value(rows, "ip"@, "inhdrerrors"@)
        && self.in_addr_errors == field_value(rows, "ip"@, "inaddrerrors"@)
        && self.forw_datagrams == field_value(rows, "ip"@, "forwdatagrams"@)
        && self.in_unkown_protos == field_value(rows, "ip"@, "inunknownprotos"@)
        && self.in_discards == field_value(rows, "ip"@, "indiscards"@)
        && self.in_delivers == field_value(rows, "ip"@, "indelivers"@)
        && self.out_requests == field_value(rows, "ip"@, "outrequests"@)
        && self.out_discards == field_value(rows, "ip"@, "outdiscards"@)
        && self.out_no_routes == field_value(rows, "ip"@, "outnoroutes"@)
        && self.reasm_timeout == field_value(rows, "ip"@, "reasmtimeout"@)
        && self.reasm_reqds == field_value(rows, "ip"@, "reasmreqds"@)
        && self.reasm_oks == field_value(rows, "ip"@, "reasmoks"@)
        && self.reasm_fails == field_value(rows, "ip"@, "reasmfails"@)
        && self.frag_oks == field_value(rows, "ip"@, "fragoks"@)
        && self.frag_fails == field_value(rows, "ip"@, "fragfails"@)
        && self.frag_creates == field_value(rows, "ip"@, "fragcreates"@)
        && self.out_transmits == field_value(rows, "ip"@, "outtransmits"@)
    }

    /// Every counter of the `ip` rows that is given has a value that parses.
    pub open spec fn readable(rows: Seq<RowView>) -> bool {
        field_parses(rows, "ip"@, "forwarding"@)
        && field_parses(rows, "ip"@, "defaultttl"@)
        && field_parses(rows, "ip"@, "inreceives"@)
        && field_parses(rows, "ip"@, "inhdrerrors"@)
        && field_parses(rows, "ip"@, "inaddrerrors"@)
        && field_parses(rows, "ip"@, "forwdatagrams"@)
        && field_parses(rows, "ip"@, "inunknownprotos"@)
        && field_parses(rows, "ip"@, "indiscards"@)
        && field_parses(rows, "ip"@, "indelivers"@)
        && field_parses(rows, "ip"@, "outrequests"@)
        && field_parses(rows, "ip"@, "outdiscards"@)
        && field_parses(rows, "ip"@, "outnoroutes"@)
        && field_parses(rows, "ip"@, "reasmtimeout"@)
        && field_parses(rows, "ip"@, "reasmreqds"@)
        && field_parses(rows, "ip"@, "reasmoks"@)
        && field_parses(rows, "ip"@, "reasmfails"@)
        && field_parses(rows, "ip"@, "fragoks"@)
        && field_parses(rows, "ip"@, "fragfails"@)
        && field_parses(rows, "ip"@, "fragcreates"@)
        && field_parses(rows, "ip"@, "outtransmits"@)
    }

    pub fn new() -> (r: Self)
        ensures
            r.is_blank(),
    {
        Ip {
            forwarding: None,
            default_ttl: None,
            in_receives: None,
            in_hdr_errors: None,
            in_addr_errors: None,
            forw_datagrams: None,
            in_unkown_protos: None,
            in_discards: None,
            in_delivers: None,
            out_requests: None,
            out_discards: None,
            out_no_routes: None,
            reasm_timeout: None,
            reasm_reqds: None,
            reasm_oks: None,
            reasm_fails: None,
            frag_oks: None,
            frag_fails: None,
            frag_creates: None,
            out_transmits: None,
        }
    }

    /// The counters of the `ip` rows of a table.
    #[verifier::rlimit(50)]
    pub fn from_rows(rows: &Vec<StatRow>) -> (r: Result<Self, MetricError>)
        ensures
            r is Ok <==> Self::readable(rows_view(rows@)),
            r is Ok ==> r->Ok_0.read_from(rows_view(rows@)),
    {
        let section = chars_of("ip");
        let forwarding = match read_field(rows, &section, "forwarding") {
            Ok(v) => v,
            Err(e) => return Err(e),
        };
        let default_ttl = match read_field(rows, &section, "defaultttl") {
            Ok(v) => v,
            Err(e) => return Err(e),
        };
        let in_receives = match read_field(rows, &section, "inreceives") {
            Ok(v) => v,
            Err(e) => return Err(e),
        };
        let in_hdr_errors = match read_field(rows, &section, "inhdrerrors") {
            Ok(v) => v,
            Err(e) => return Err(e),
        };
        let in_addr_errors = match read_field(rows, &section, "inaddrerrors") {
            Ok(v) => v,
            Err(e) => return Err(e),
        };
        let forw_datagrams = match read_field(rows, &section, "forwdatagrams") {
            Ok(v) => v,
            Err(e) => return Err(e),
        };
        let in_unkown_protos = match read_field(rows, &section, "inunknownprotos") {
            Ok(v) => v,
            Err(e) => return Err(e),
        };
        let in_discards = match read_field(rows, &section, "indiscards") {
            Ok(v) => v,
            Err(e) => return Err(e),
        };
        let in_delivers = match read_field(rows, &section, "indelivers") {
            Ok(v) => v,
            Err(e) => return Err(e),
        };
        let out_requests = match read_field(rows, &section, "outrequests") {
            Ok(v) => v,
            Err(e) => return Err(e),
        };
        let out_discards = match read_field(rows, &section, "outdiscards") {
            Ok(v) => v,
            Err(e) => return Err(e),
        };
        let out_no_routes = match read_field(rows, &section, "outnoroutes") {
            Ok(v) => v,
            Err(e) => return Err(e),
        };
        let reasm_timeout = match read_field(rows, &section, "reasmtimeout") {
            Ok(v) => v,
            Err(e) => return Err(e),
        };
        let reasm_reqds = match read_field(rows, &section, "reasmreqds") {
            Ok(v) => v,
            Err(e) => return Err(e),
        };
        let reasm_oks = match read_field(rows, &section, "reasmoks") {
            Ok(v) => v,
            Err(e) => return Err(e),
        };
        let reasm_fails = match read_field(rows, &section, "reasmfails") {
            Ok(v) => v,
            Err(e) => return Err(e),
        };
        let frag_oks = match read_field(rows, &section, "fragoks") {
            Ok(v) => v,
            Err(e) => return Err(e),
        };
        let frag_fails = match read_field(rows, &section, "fragfails") {
            Ok(v) => v,
            Err(e) => return Err(e),
        };
        let frag_creates = match read_field(rows, &section, "fragcreates") {
            Ok(v) => v,
            Err(e) => return Err(e),
        };
        let out_transmits = match read_field(rows, &section, "outtransmits") {
            Ok(v) => v,
            Err(e) => return Err(e),
        };
        Ok(Ip {
            forwarding,
            default_ttl,
            in_receives,
            in_hdr_errors,
            in_addr_errors,
            forw_datagrams,
            in_unkown_protos,
            in_discards,
            in_delivers,
            out_requests,
            out_discards,
            out_no_routes,
            reasm_timeout,
            reasm_reqds,
            reasm_oks,
            reasm_fails,
            frag_oks,
            frag_fails,
            frag_creates,
            out_transmits,
        })
    }
}

/// The `Icmp` section.
#[derive(Debug, Clone)]
pub struct Icmp {
    pub in_msgs: Option<i64>,
    pub in_errors: Option<i64>,
    pub in_csum_errors: Option<i64>,
    pub in_dest_unreachs: Option<i64>,
    pub in_time_excds: Option<i64>,
    pub in_parm_probs: Option<i64>,
    pub in_src_quenchs: Option<i64>,
    pub in_redirects: Option<i64>,
    pub in_echos: Option<i64>,
    pub in_echo_reps: Option<i64>,
    pub in_timestamps: Option<i64>,
    pub in_timestamp_reps: Option<i64>,
    pub in_addr_masks: Option<i64>,
    pub in_addr_mask_reps: Option<i64>,
    pub out_msgs: Option<i64>,
    pub out_errors: Option<i64>,
    pub out_rate_limit_global: Option<i64>,
    pub out_rate_limit_host: Option<i64>,
    pub out_dest_unreachs: Option<i64>,
    pub out_time_excds: Option<i64>,
    pub out_parm_probs: Option<i64>,
    pub out_src_quenchs: Option<i64>,
    pub out_redirects: Option<i64>,
    pub out_echos: Option<i64>,
    pub out_echo_reps: Option<i64>,
    pub out_timestamps: Option<i64>,
    pub out_timestamp_reps: Option<i64>,
    pub out_addr_masks: Option<i64>,
    pub out_addr_mask_reps: Option<i64>,
}

impl Icmp {
    /// No counter known yet.
    pub open spec fn is_blank(&self) -> bool {
        self.in_msgs is None
        && self.in_errors is None
        && self.in_csum_errors is None
        && self.in_dest_unreachs is None
        && self.in_time_excds is None
        && self.in_parm_probs is None
        && self.in_src_quenchs is None
        && self.in_redirects is None
        && self.in_echos is None
        && self.in_echo_reps is None
        && self.in_timestamps is None
        && self.in_timestamp_reps is None
        && self.in_addr_masks is None
        && self.in_addr_mask_reps is None
        && self.out_msgs is None
        && self.out_errors is None
        && self.out_rate_limit_global is None
        && self.out_rate_limit_host is None
        && self.out_dest_unreachs is None
        && self.out_time_excds is None
        && self.out_parm_probs is None
        && self.out_src_quenchs is None
        && self.out_redirects is None
        && self.out_echos is None
        && self.out_echo_reps is None
        && self.out_timestamps is None
        && self.out_timestamp_reps is None
        && self.out_addr_masks is None
        && self.out_addr_mask_reps is None
    }

    /// Each counter holds what the `icmp` rows of the table give it.
    pub open spec fn read_from(&self, rows: Seq<RowView>) -> bool {
        self.in_msgs == field_value(rows, "icmp"@, "inmsgs"@)
        && self.in_errors == field_value(rows, "icmp"@, "inerrors"@)
        && self.in_csum_errors == field_value(rows, "icmp"@, "incsumerrors"@)
        && self.in_dest_unreachs == field_value(rows, "icmp"@, "indestunreachs"@)
        && self.in_time_excds == field_value(rows, "icmp"@, "intimeexcds"@)
        && self.in_parm_probs == field_value(rows, "icmp"@, "inparmprobs"@)
        && self.in_src_quenchs == field_value(rows, "icmp"@, "insrcquenchs"@)
        && self.in_redirects == field_value(rows, "icmp"@, "inredirects"@)
        && self.in_echos == field_value(rows, "icmp"@, "inechos"@)
        && self.in_echo_reps == field_value(rows, "icmp"@, "inechoreps"@)
        && self.in_timestamps == field_value(rows, "icmp"@, "intimestamps"@)
        && self.in_timestamp_reps == field_value(rows, "icmp"@, "intimestampreps"@)
        && self.in_addr_masks == field_value(rows, "icmp"@, "inaddrmasks"@)
        && self.in_addr_mask_reps == field_value(rows, "icmp"@, "inaddrmaskreps"@)
        && self.out_msgs == field_value(rows, "icmp"@, "outmsgs"@)
        && self.out_errors == field_value(rows, "icmp"@, "outerrors"@)
        && self.out_rate_limit_global == field_value(rows, "icmp"@, "outratelimitglobal"@)
        && self.out_rate_limit_host == field_value(rows, "icmp"@, "outratelimithost"@)
        && self.out_dest_unreachs == field_value(rows, "icmp"@, "outdestunreachs"@)
        && self.out_time_excds == field_value(rows, "icmp"@, "outtimeexcds"@)
        && self.out_parm_probs == field_value(rows, "icmp"@, "outparmprobs"@)
        && self.out_src_quenchs == field_value(rows, "icmp"@, "outsrcquenchs"@)
        && self.out_redirects == field_value(rows, "icmp"@, "outredirects"@)
        && self.out_echos == field_value(rows, "icmp"@, "outechos"@)
        && self.out_echo_reps == field_value(rows, "icmp"@, "outechoreps"@)
        && self.out_timestamps == field_value(rows, "icmp"@, "outtimestamps"@)
        && self.out_timestamp_reps == field_value(rows, "icmp"@, "outtimestampreps"@)
        && self.out_addr_masks == field_value(rows, "icmp"@, "outaddrmasks"@)
        && self.out_addr_mask_reps == field_value(rows, "icmp"@, "outaddrmaskreps"@)
    }

    /// Every counter of the `icmp` rows that is given has a value that parses.
    pub open spec fn readable(rows: Seq<RowView>) -> bool {
        field_parses(rows, "icmp"@, "inmsgs"@)
        && field_parses(rows, "icmp"@, "inerrors"@)
        && field_parses(rows, "icmp"@, "incsumerrors"@)
        && field_parses(rows, "icmp"@, "indestunreachs"@)
        && field_parses(rows, "icmp"@, "intimeexcds"@)
        && field_parses(rows, "icmp"@, "inparmprobs"@)
        && field_parses(rows, "icmp"@, "insrcquenchs"@)
        && field_parses(rows, "icmp"@, "inredirects"@)
        && field_parses(rows, "icmp"@, "inechos"@)
        && field_parses(rows, "icmp"@, "inechoreps"@)
        && field_parses(rows, "icmp"@, "intimestamps"@)
        && field_parses(rows, "icmp"@, "intimestampreps"@)
        && field_parses(rows, "icmp"@, "inaddrmasks"@)
        && field_parses(rows, "icmp"@, "inaddrmaskreps"@)
        && field_parses(rows, "icmp"@, "outmsgs"@)
        && field_parses(rows, "icmp"@, "outerrors"@)
        && field_parses(rows, "icmp"@, "outratelimitglobal"@)
        && field_parses(rows, "icmp"@, "outratelimithost"@)
        && field_parses(rows, "icmp"@, "outdestunreachs"@)
        && field_parses(rows, "icmp"@, "outtimeexcds"@)
        && field_parses(rows, "icmp"@, "outparmprobs"@)
        && field_parses(rows, "icmp"@, "outsrcquenchs"@)
        && field_parses(rows, "icmp"@, "outredirects"@)
        && field_parses(rows, "icmp"@, "outechos"@)
        && field_parses(rows, "icmp"@, "outechoreps"@)
        && field_parses(rows, "icmp"@, "outtimestamps"@)
        && field_parses(rows, "icmp"@, "outtimestampreps"@)
        && field_parses(rows, "icmp"@, "outaddrmasks"@)
        && field_parses(rows, "icmp"@, "outaddrmaskreps"@)
    }

    pub fn new() -> (r: Self)
        ensures
            r.is_blank(),
    {
        Icmp {
            in_msgs: None,
            in_errors: None,
            in_csum_errors: None,
            in_dest_unreachs: None,
            in_time_excds: None,
            in_parm_probs: None,
            in_src_quenchs: None,
            in_redirects: None,
            in_echos: None,
            in_echo_reps: None,
            in_timestamps: None,
            in_timestamp_reps: None,
            in_addr_masks: None,
            in_addr_mask_reps: None,
            out_msgs: None,
            out_errors: None,
            out_rate_limit_global: None,
            out_rate_limit_host: None,
            out_dest_unreachs: None,
            out_time_excds: None,
            out_parm_probs: None,
            out_src_quenchs: None,
            out_redirects: None,
            out_echos: None,
            out_echo_reps: None,
            out_timestamps: None,
            out_timestamp_reps: None,
            out_addr_masks: None,
            out_addr_mask_reps: None,
        }
    }

    /// The counters of the `icmp` rows of a table.
    #[verifier::rlimit(50)]
    pub fn from_rows(rows: &Vec<StatRow>) -> (r: Result<Self, MetricError>)
        ensures
            r is Ok <==> Self::readable(rows_view(rows@)),
            r is Ok ==> r->Ok_0.read_from(rows_view(rows@)),
    {
        let section = chars_of("icmp");
        let in_msgs = match read_field(rows, &section, "inmsgs") {
            Ok(v) => v,
            Err(e) => return Err(e),
        };
        let in_errors = match read_field(rows, &section, "inerrors") {
            Ok(v) => v,
            Err(e) => return Err(e),
        };
        let in_csum_errors = match read_field(rows, &section, "incsumerrors") {
            Ok(v) => v,
            Err(e) => return Err(e),
        };
        let in_dest_unreachs = match read_field(rows, &section, "indestunreachs") {
            Ok(v) => v,
            Err(e) => return Err(e),
        };
        let in_time_excds = match read_field(rows, &section, "intimeexcds") {
            Ok(v) => v,
            Err(e) => return Err(e),
        };
        let in_parm_probs = match read_field(rows, &section, "inparmprobs") {
            Ok(v) => v,
            Err(e) => return Err(e),
        };
        let in_src_quenchs = match read_field(rows, &section, "insrcquenchs") {
            Ok(v) => v,
            Err(e) => return Err(e),
        };
        let in_redirects = match read_field(rows, &section, "inredirects") {
            Ok(v) => v,
            Err(e) => return Err(e),
        };
        let in_echos = match read_field(rows, &section, "inechos") {
            Ok(v) => v,
            Err(e) => return Err(e),
        };
        let in_echo_reps = match read_field(rows, &section, "inechoreps") {
            Ok(v) => v,
            Err(e) => return Err(e),
        };
        let in_timestamps = match read_field(rows, &section, "intimestamps") {
            Ok(v) => v,
            Err(e) => return Err(e),
        };
        let in_timestamp_reps = match read_field(rows, &section, "intimestampreps") {
            Ok(v) => v,
            Err(e) => return Err(e),
        };
        let in_addr_masks = match read_field(rows, &section, "inaddrmasks") {
            Ok(v) => v,
            Err(e) => return Err(e),
        };
        let in_addr_mask_reps = match read_field(rows, &section, "inaddrmaskreps") {
            Ok(v) => v,
            Err(e) => return Err(e),
        };
        let out_msgs = match read_field(rows, &section, "outmsgs") {
            Ok(v) => v,
            Err(e) => return Err(e),
        };
        let out_errors = match read_field(rows, &section, "outerrors") {
            Ok(v) => v,
            Err(e) => return Err(e),
        };
        let out_rate_limit_global = match read_field(rows, &section, "outratelimitglobal") {
            Ok(v) => v,
            Err(e) => return Err(e),
        };
        let out_rate_limit_host = match read_field(rows, &section, "outratelimithost") {
            Ok(v) => v,
            Err(e) => return Err(e),
        };
        let out_dest_unreachs = match read_field(rows, &section, "outdestunreachs") {
            Ok(v) => v,
            Err(e) => return Err(e),
        };
        let out_time_excds = match read_field(rows, &section, "outtimeexcds") {
            Ok(v) => v,
            Err(e) => return Err(e),
        };
        let out_parm_probs = match read_field(rows, &section, "outparmprobs") {
            Ok(v) => v,
            Err(e) => return Err(e),
        };
        let out_src_quenchs = match read_field(rows, &section, "outsrcquenchs") {
            Ok(v) => v,
            Err(e) => return Err(e),
        };
        let out_redirects = match read_field(rows, &section, "outredirects") {
            Ok(v) => v,
            Err(e) => return Err(e),
        };
        let out_echos = match read_field(rows, &section, "outechos") {
            Ok(v) => v,
            Err(e) => return Err(e),
        };
        let out_echo_reps = match read_field(rows, &section, "outechoreps") {
            Ok(v) => v,
            Err(e) => return Err(e),
        };
        let out_timestamps = match read_field(rows, &section, "outtimestamps") {
            Ok(v) => v,
            Err(e) => return Err(e),
        };
        let out_timestamp_reps = match read_field(rows, &section, "outtimestampreps") {
            Ok(v) => v,
            Err(e) => return Err(e),
        };
        let out_addr_masks = match read_field(rows, &section, "outaddrmasks") {
            Ok(v) => v,
            Err(e) => return Err(e),
        };
        let out_addr_mask_reps = match read_field(rows, &section, "outaddrmaskreps") {
            Ok(v) => v,
            Err(e) => return Err(e),
        };
        Ok(Icmp {
            in_msgs,
            in_errors,
            in_csum_errors,
            in_dest_unreachs,
            in_time_excds,
            in_parm_probs,
            in_src_quenchs,
            in_redirects,
            in_echos,
            in_echo_reps,
            in_timestamps,
            in_timestamp_reps,
            in_addr_masks,
            in_addr_mask_reps,
            out_msgs,
            out_errors,
            out_rate_limit_global,
            out_rate_limit_host,
            out_dest_unreachs,
            out_time_excds,
            out_parm_probs,
            out_src_quenchs,
            out_redirects,
            out_echos,
            out_echo_reps,
            out_timestamps,
            out_timestamp_reps,
            out_addr_masks,
            out_addr_mask_reps,
        })
    }
}

/// The `IcmpMsg` section.
#[derive(Debug, Clone)]
pub struct IcmpMsg {
    pub in_type3: Option<i64>,
    pub out_type3: Option<i64>,
}

impl IcmpMsg {
    /// No counter known yet.
    pub open spec fn is_blank(&self) -> bool {
        self.in_type3 is None
        && self.out_type3 is None
    }

    /// Each counter holds what the `icmpmsg` rows of the table give it.
    pub open spec fn read_from(&self, rows: Seq<RowView>) -> bool {
        self.in_type3 == field_value(rows, "icmpmsg"@, "intype3"@)
        && self.out_type3 == field_value(rows, "icmpmsg"@, "outtype3"@)
    }

    /// Every counter of the `icmpmsg` rows that is given has a value that parses.
    pub open spec fn readable(rows: Seq<RowView>) -> bool {
        field_parses(rows, "icmpmsg"@, "intype3"@)
        && field_parses(rows, "icmpmsg"@, "outtype3"@)
    }

    pub fn new() -> (r: Self)
        ensures
            r.is_blank(),
    {
        IcmpMsg {
            in_type3: None,
            out_type3: None,
        }
    }

    /// The counters of the `icmpmsg` rows of a table.
    #[verifier::rlimit(50)]
    pub fn from_rows(rows: &Vec<StatRow>) -> (r: Result<Self, MetricError>)
        ensures
            r is Ok <==> Self::readable(rows_view(rows@)),
            r is Ok ==> r->Ok_0.read_from(rows_view(rows@)),
    {
        let section = chars_of("icmpmsg");
        let in_type3 = match read_field(rows, &section, "intype3") {
            Ok(v) => v,
            Err(e) => return Err(e),
        };
        let out_type3 = match read_field(rows, &section, "outtype3") {
            Ok(v) => v,
            Err(e) => return Err(e),
        };
        Ok(IcmpMsg {
            in_type3,
            out_type3,
        })
    }
}

/// The `Tcp` section.
#[derive(Debug, Clone)]
pub struct Tcp {
    pub rto_algorithm: Option<i64>,
    pub rto_min: Option<i64>,
    pub rto_max: Option<i64>,
    pub max_conn: Option<i64>,
    pub active_opens: Option<i64>,
    pub passive_opens: Option<i64>,
    pub attempt_fails: Option<i64>,
    pub estab_resets: Option<i64>,
    pub curr_estab: Option<i64>,
    pub in_segs: Option<i64>,
    pub out_segs: Option<i64>,
    pub retrans_segs: Option<i64>,
    pub in_errs: Option<i64>,
    pub out_rsts: Option<i64>,
    pub in_csum_errors: Option<i64>,
}

impl Tcp {
    /// No counter known yet.
    pub open spec fn is_blank(&self) -> bool {
        self.rto_algorithm is None
        && self.rto_min is None
        && self.rto_max is None
        && self.max_conn is None
        && self.active_opens is None
        && self.passive_opens is None
        && self.attempt_fails is None
        && self.estab_resets is None
        && self.curr_estab is None
        && self.in_segs is None
        && self.out_segs is None
        && self.retrans_segs is None
        && self.in_errs is None
        && self.out_rsts is None
        && self.in_csum_errors is None
    }

    /// Each counter holds what the `tcp` rows of the table give it.
    pub open spec fn read_from(&self, rows: Seq<RowView>) -> bool {
        self.rto_algorithm == field_value(rows, "tcp"@, "rtoalgorithm"@)
        && self.rto_min == field_value(rows, "tcp"@, "rtomin"@)
        && self.rto_max == field_value(rows, "tcp"@, "rtomax"@)
        && self.max_conn == field_value(rows, "tcp"@, "maxconn"@)
        && self.active_opens == field_value(rows, "tcp"@, "activeopens"@)
        && self.passive_opens == field_value(rows, "tcp"@, "passiveopens"@)
        && self.attempt_fails == field_value(rows, "tcp"@, "attemptfails"@)
        && self.estab_resets == field_value(rows, "tcp"@, "estabresets"@)
        && self.curr_estab == field_value(rows, "tcp"@, "currestab"@)
        && self.in_segs == field_value(rows, "tcp"@, "insegs"@)
        && self.out_segs == field_value(rows, "tcp"@, "outsegs"@)
        && self.retrans_segs == field_value(rows, "tcp"@, "retranssegs"@)
        && self.in_errs == field_value(rows, "tcp"@, "inerrs"@)
        && self.out_rsts == field_value(rows, "tcp"@, "outrsts"@)
        && self.in_csum_errors == field_value(rows, "tcp"@, "incsumerrors"@)
    }

    /// Every counter of the `tcp` rows that is given has a value that parses.
    pub open spec fn readable(rows: Seq<RowView>) -> bool {
        field_parses(rows, "tcp"@, "rtoalgorithm"@)
        && field_parses(rows, "tcp"@, "rtomin"@)
        && field_parses(rows, "tcp"@, "rtomax"@)
        && field_parses(rows, "tcp"@, "maxconn"@)
        && field_parses(rows, "tcp"@, "activeopens"@)
        && field_parses(rows, "tcp"@, "passiveopens"@)
        && field_parses(rows, "tcp"@, "attemptfails"@)
        && field_parses(rows, "tcp"@, "estabresets"@)
        && field_parses(rows, "tcp"@, "currestab"@)
        && field_parses(rows, "tcp"@, "insegs"@)
        && field_parses(rows, "tcp"@, "outsegs"@)
        && field_parses(rows, "tcp"@, "retranssegs"@)
        && field_parses(rows, "tcp"@, "inerrs"@)
        && field_parses(rows, "tcp"@, "outrsts"@)
        && field_parses(rows, "tcp"@, "incsumerrors"@)
    }

    pub fn new() -> (r: Self)
        ensures
            r.is_blank(),
    {
        Tcp {
            rto_algorithm: None,
            rto_min: None,
            rto_max: None,
            max_conn: None,
            active_opens: None,
            passive_opens: None,
            attempt_fails: None,
            estab_resets: None,
            curr_estab: None,
            in_segs: None,
            out_segs: None,
            retrans_segs: None,
            in_errs: None,
            out_rsts: None,
            in_csum_errors: None,
        }
    }

    /// The counters of the `tcp` rows of a table.
    #[verifier::rlimit(50)]
    pub fn from_rows(rows: &Vec<StatRow>) -> (r: Result<Self, MetricError>)
        ensures
            r is Ok <==> Self::readable(rows_view(rows@)),
            r is Ok ==> r->Ok_0.read_from(rows_view(rows@)),
    {
        let section = chars_of("tcp");
        let rto_algorithm = match read_field(rows, &section, "rtoalgorithm") {
            Ok(v) => v,
            Err(e) => return Err(e),
        };
        let rto_min = match read_field(rows, &section, "rtomin") {
            Ok(v) => v,
            Err(e) => return Err(e),
        };
        let rto_max = match read_field(rows, &section, "rtomax") {
            Ok(v) => v,
            Err(e) => return Err(e),
        };
        let max_conn = match read_field(rows, &section, "maxconn") {
            Ok(v) => v,
            Err(e) => return Err(e),
        };
        let active_opens = match read_field(rows, &section, "activeopens") {
            Ok(v) => v,
            Err(e) => return Err(e),
        };
        let passive_opens = match read_field(rows, &section, "passiveopens") {
            Ok(v) => v,
            Err(e) => return Err(e),
        };
        let attempt_fails = match read_field(rows, &section, "attemptfails") {
            Ok(v) => v,
            Err(e) => return Err(e),
        };
        let estab_resets = match read_field(rows, &section, "estabresets") {
            Ok(v) => v,
            Err(e) => return Err(e),
        };
        let curr_estab = match read_field(rows, &section, "currestab") {
            Ok(v) => v,
            Err(e) => return Err(e),
        };
        let in_segs = match read_field(rows, &section, "insegs") {
            Ok(v) => v,
            Err(e) => return Err(e),
        };
        let out_segs = match read_field(rows, &section, "outsegs") {
            Ok(v) => v,
            Err(e) => return Err(e),
        };
        let retrans_segs = match read_field(rows, &section, "retranssegs") {
            Ok(v) => v,
            Err(e) => return Err(e),
        };
        let in_errs = match read_field(rows, &section, "inerrs") {
            Ok(v) => v,
            Err(e) => return Err(e),
        };
        let out_rsts = match read_field(rows, &section, "outrsts") {
            Ok(v) => v,
            Err(e) => return Err(e),
        };
        let in_csum_errors = match read_field(rows, &section, "incsumerrors") {
            Ok(v) => v,
            Err(e) => return Err(e),
        };
        Ok(Tcp {
            rto_algorithm,
            rto_min,
            rto_max,
            max_conn,
            active_opens,
            passive_opens,
            attempt_fails,
            estab_resets,
            curr_estab,
            in_segs,
            out_segs,
            retrans_segs,
            in_errs,
            out_rsts,
            in_csum_errors,
        })
    }
}

/// The `Udp` section.
#[derive(Debug, Clone)]
pub struct Udp {
    pub in_datagrams: Option<i64>,
    pub no_ports: Option<i64>,
    pub in_errors: Option<i64>,
    pub out_datagrams: Option<i64>,
    pub rcvbuf_errors: Option<i64>,
    pub sndbuf_errors: Option<i64>,
    pub in_csum_errors: Option<i64>,
    pub ignored_multi: Option<i64>,
    pub mem_errors: Option<i64>,
}

impl Udp {
    /// No counter known yet.
    pub open spec fn is_blank(&self) -> bool {
        self.in_datagrams is None
        && self.no_ports is None
        && self.in_errors is None
        && self.out_datagrams is None
        && self.rcvbuf_errors is None
        && self.sndbuf_errors is None
        && self.in_csum_errors is None
        && self.ignored_multi is None
        && self.mem_errors is None
    }

    /// Each counter holds what the `udp` rows of the table give it.
    pub open spec fn read_from(&self, rows: Seq<RowView>) -> bool {
        self.in_datagrams == field_value(rows, "udp"@, "indatagrams"@)
        && self.no_ports == field_value(rows, "udp"@, "noports"@)
        && self.in_errors == field_value(rows, "udp"@, "inerrors"@)
        && self.out_datagrams == field_value(rows, "udp"@, "outdatagrams"@)
        && self.rcvbuf_errors == field_value(rows, "udp"@, "rcvbuferrors"@)
        && self.sndbuf_errors == field_value(rows, "udp"@, "sndbuferrors"@)
        && self.in_csum_errors == field_value(rows, "udp"@, "incsumerrors"@)
        && self.ignored_multi == field_value(rows, "udp"@, "ignoredmulti"@)
        && self.mem_errors == field_value(rows, "udp"@, "memerrors"@)
    }

    /// Every counter of the `udp` rows that is given has a value that parses.
    pub open spec fn readable(rows: Seq<RowView>) -> bool {
        field_parses(rows, "udp"@, "indatagrams"@)
        && field_parses(rows, "udp"@, "noports"@)
        && field_parses(rows, "udp"@, "inerrors"@)
        && field_parses(rows, "udp"@, "outdatagrams"@)
        && field_parses(rows, "udp"@, "rcvbuferrors"@)
        && field_parses(rows, "udp"@, "sndbuferrors"@)
        && field_parses(rows, "udp"@, "incsumerrors"@)
        && field_parses(rows, "udp"@, "ignoredmulti"@)
        && field_parses(rows, "udp"@, "memerrors"@)
    }

    pub fn new() -> (r: Self)
        ensures
            r.is_blank(),
    {
        Udp {
            in_datagrams: None,
            no_ports: None,
            in_errors: None,
            out_datagrams: None,
            rcvbuf_errors: None,
            sndbuf_errors: None,
            in_csum_errors: None,
            ignored_multi: None,
            mem_errors: None,
        }
    }

    /// The counters of the `udp` rows of a table.
    #[verifier::rlimit(50)]
    pub fn from_rows(rows: &Vec<StatRow>) -> (r: Result<Self, MetricError>)
        ensures
            r is Ok <==> Self::readable(rows_view(rows@)),
            r is Ok ==> r->Ok_0.read_from(rows_view(rows@)),
    {
        let section = chars_of("udp");
        let in_datagrams = match read_field(rows, &section, "indatagrams") {
            Ok(v) => v,
            Err(e) => return Err(e),
        };
        let no_ports = match read_field(rows, &section, "noports") {
            Ok(v) => v,
            Err(e) => return Err(e),
        };
        let in_errors = match read_field(rows, &section, "inerrors") {
            Ok(v) => v,
            Err(e) => return Err(e),
        };
        let out_datagrams = match read_field(rows, &section, "outdatagrams") {
            Ok(v) => v,
            Err(e) => return Err(e),
        };
        let rcvbuf_errors = match read_field(rows, &section, "rcvbuferrors") {
            Ok(v) => v,
            Err(e) => return Err(e),
        };
        let sndbuf_errors = match read_field(rows, &section, "sndbuferrors") {
            Ok(v) => v,
            Err(e) => return Err(e),
        };
        let in_csum_errors = match read_field(rows, &section, "incsumerrors") {
            Ok(v) => v,
            Err(e) => return Err(e),
        };
        let ignored_multi = match read_field(rows, &section, "ignoredmulti") {
            Ok(v) => v,
            Err(e) => return Err(e),
        };
        let mem_errors = match read_field(rows, &section, "memerrors") {
            Ok(v) => v,
            Err(e) => return Err(e),
        };
        Ok(Udp {
            in_datagrams,
            no_ports,
            in_errors,
            out_datagrams,
            rcvbuf_errors,
            sndbuf_errors,
            in_csum_errors,
            ignored_multi,
            mem_errors,
        })
    }
}

/// The `UdpLite` section.
#[derive(Debug, Clone)]
pub struct UdpLite {
    pub in_datagrams: Option<i64>,
    pub no_ports: Option<i64>,
    pub in_errors: Option<i64>,
    pub out_datagrams: Option<i64>,
    pub rcvbuf_errors: Option<i64>,
    pub sndbuf_errors: Option<i64>,
    pub in_csum_errors: Option<i64>,
    pub ignored_multi: Option<i64>,
    pub mem_errors: Option<i64>,
}

impl UdpLite {
    /// No counter known yet.
    pub open spec fn is_blank(&self) -> bool {
        self.in_datagrams is None
        && self.no_ports is None
        && self.in_errors is None
        && self.out_datagrams is None
        && self.rcvbuf_errors is None
        && self.sndbuf_errors is None
        && self.in_csum_errors is None
        && self.ignored_multi is None
        && self.mem_errors is None
    }

    /// Each counter holds what the `udplite` rows of the table give it.
    pub open spec fn read_from(&self, rows: Seq<RowView>) -> bool {
        self.in_datagrams == field_value(rows, "udplite"@, "indatagrams"@)
        && self.no_ports == field_value(rows, "udplite"@, "noports"@)
        && self.in_errors == field_value(rows, "udplite"@, "inerrors"@)
        && self.out_datagrams == field_value(rows, "udplite"@, "outdatagrams"@)
        && self.rcvbuf_errors == field_value(rows, "udplite"@, "rcvbuferrors"@)
        && self.sndbuf_errors == field_value(rows, "udplite"@, "sndbuferrors"@)
        && self.in_csum_errors == field_value(rows, "udplite"@, "incsumerrors"@)
        && self.ignored_multi == field_value(rows, "udplite"@, "ignoredmulti"@)
        && self.mem_errors == field_value(rows, "udplite"@, "memerrors"@)
    }

    /// Every counter of the `udplite` rows that is given has a value that parses.
    pub open spec fn readable(rows: Seq<RowView>) -> bool {
        field_parses(rows, "udplite"@, "indatagrams"@)
        && field_parses(rows, "udplite"@, "noports"@)
        && field_parses(rows, "udplite"@, "inerrors"@)
        && field_parses(rows, "udplite"@, "outdatagrams"@)
        && field_parses(rows, "udplite"@, "rcvbuferrors"@)
        && field_parses(rows, "udplite"@, "sndbuferrors"@)
        && field_parses(rows, "udplite"@, "incsumerrors"@)
        && field_parses(rows, "udplite"@, "ignoredmulti"@)
        && field_parses(rows, "udplite"@, "memerrors"@)
    }

    pub fn new() -> (r: Self)
        ensures
            r.is_blank(),
    {
        UdpLite {
            in_datagrams: None,
            no_ports: None,
            in_errors: None,
            out_datagrams: None,
            rcvbuf_errors: None,
            sndbuf_errors: None,
            in_csum_errors: None,
            ignored_multi: None,
            mem_errors: None,
        }
    }

    /// The counters of the `udplite` rows of a table.
    #[verifier::rlimit(50)]
    pub fn from_rows(rows: &Vec<StatRow>) -> (r: Result<Self, MetricError>)
        ensures
            r is Ok <==> Self::readable(rows_view(rows@)),
            r is Ok ==> r->Ok_0.read_from(rows_view(rows@)),
    {
        let section = chars_of("udplite");
        let in_datagrams = match read_field(rows, &section, "indatagrams") {
            Ok(v) => v,
            Err(e) => return Err(e),
        };
        let no_ports = match read_field(rows, &section, "noports") {
            Ok(v) => v,
            Err(e) => return Err(e),
        };
        let in_errors = match read_field(rows, &section, "inerrors") {
            Ok(v) => v,
            Err(e) => return Err(e),
        };
        let out_datagrams = match read_field(rows, &section, "outdatagrams") {
            Ok(v) => v,
            Err(e) => return Err(e),
        };
        let rcvbuf_errors = match read_field(rows, &section, "rcvbuferrors") {
            Ok(v) => v,
            Err(e) => return Err(e),
        };
        let sndbuf_errors = match read_field(rows, &section, "sndbuferrors") {
            Ok(v) => v,
            Err(e) => return Err(e),
        };
        let in_csum_errors = match read_field(rows, &section, "incsumerrors") {
            Ok(v) => v,
            Err(e) => return Err(e),
        };
        let ignored_multi = match read_field(rows, &section, "ignoredmulti") {
            Ok(v) => v,
            Err(e) => return Err(e),
        };
        let mem_errors = match read_field(rows, &section, "memerrors") {
            Ok(v) => v,
            Err(e) => return Err(e),
        };
        Ok(UdpLite {
            in_datagrams,
            no_ports,
            in_errors,
            out_datagrams,
            rcvbuf_errors,
            sndbuf_errors,
            in_csum_errors,
            ignored_multi,
            mem_errors,
        })
    }
}

impl ProcessNetSnmp {
    pub fn new() -> (r: Self)
        ensures
            r.ip.is_blank(),
            r.icmp.is_blank(),
            r.icmp_msg.is_blank(),
            r.tcp.is_blank(),
            r.udp.is_blank(),
            r.upd_lite.is_blank(),
    {
        ProcessNetSnmp {
            ip: Ip::new(),
            icmp: Icmp::new(),
            icmp_msg: IcmpMsg::new(),
            tcp: Tcp::new(),
            udp: Udp::new(),
            upd_lite: UdpLite::new(),
        }
    }

    /// Every section's counters read from the table.
    pub open spec fn read_from(&self, rows: Seq<RowView>) -> bool {
        self.ip.read_from(rows)
        && self.icmp.read_from(rows)
        && self.icmp_msg.read_from(rows)
        && self.tcp.read_from(rows)
        && self.udp.read_from(rows)
        && self.upd_lite.read_from(rows)
    }

    /// Every given counter of a known section parses.
    pub open spec fn readable(rows: Seq<RowView>) -> bool {
        Ip::readable(rows)
        && Icmp::readable(rows)
        && IcmpMsg::readable(rows)
        && Tcp::readable(rows)
        && Udp::readable(rows)
        && UdpLite::readable(rows)
    }

    /// The counters of a table already split into rows.
    pub fn from_rows(rows: &Vec<StatRow>) -> (r: Result<Self, MetricError>)
        ensures
            r is Ok <==> Self::readable(rows_view(rows@)),
            r is Ok ==> r->Ok_0.read_from(rows_view(rows@)),
    {
        let ip = match Ip::from_rows(rows) {
            Ok(v) => v,
            Err(e) => return Err(e),
        };
        let icmp = match Icmp::from_rows(rows) {
            Ok(v) => v,
            Err(e) => return Err(e),
        };
        let icmp_msg = match IcmpMsg::from_rows(rows) {
            Ok(v) => v,
            Err(e) => return Err(e),
        };
        let tcp = match Tcp::from_rows(rows) {
            Ok(v) => v,
            Err(e) => return Err(e),
        };
        let udp = match Udp::from_rows(rows) {
            Ok(v) => v,
            Err(e) => return Err(e),
        };
        let upd_lite = match UdpLite::from_rows(rows) {
            Ok(v) => v,
            Err(e) => return Err(e),
        };
        Ok(ProcessNetSnmp { ip, icmp, icmp_msg, tcp, udp, upd_lite })
    }

    /// The counters of the file, given as its lines.
    pub fn parse(lines: &Vec<String>) -> (r: Result<Self, MetricError>)
        ensures
            match table_of(lines.deep_view()) {
                Some(t) => (r is Ok <==> Self::readable(t)) && (r is Ok ==> r->Ok_0.read_from(t)),
                None => r is Err,
            },
    {
        let rows = parse_table(lines)?;
        Self::from_rows(&rows)
    }
}

} // verus!
