//! The IPv6 counters of `/proc/<pid>/net/snmp6`: `Name value` per line.
use vstd::prelude::*;
use crate::error::MetricError;
use crate::kv::{find_pair, pair_text, pairs_of, parse_pairs, PairView};
use crate::text::{i64_of, parse_i64, string_of};

verus! {

/// Every record's value is an `i64`.
pub open spec fn all_counters(pairs: Seq<PairView>) -> bool {
    forall|i: int| 0 <= i < pairs.len() ==> (#[trigger] i64_of(pairs[i].1)) is Some
}

/// The value of the last record named `key`.
pub open spec fn counter_field(pairs: Seq<PairView>, key: Seq<char>) -> Option<i64> {
    match pair_text(pairs, key) {
        Some(t) => i64_of(t),
        None => None,
    }
}

/// The records of the file, each checked to hold an `i64`.
fn check_counters(lines: &Vec<String>) -> (r: Result<Vec<(Vec<char>, Vec<char>)>, MetricError>)
    ensures
        match pairs_of(lines.deep_view(), ' ') {
            Some(ps) => (r is Ok <==> all_counters(ps)) && (r is Ok ==> r->Ok_0.deep_view() == ps),
            None => r is Err,
        },
{
    let pairs = parse_pairs(lines, ' ', "process net snmp6")?;
    let ghost ps = pairs.deep_view();
    let mut i: usize = 0;
    while i < pairs.len()
        invariant
            i <= pairs.len() == ps.len(),
            ps == pairs.deep_view(),
            pairs_of(lines.deep_view(), ' ') == Some(ps),
            forall|j: int| 0 <= j < i ==> (#[trigger] i64_of(ps[j].1)) is Some,
        decreases pairs.len() - i,
    {
        assert(ps[i as int].1 == pairs@[i as int].1@);
        if parse_i64(&pairs[i].1).is_none() {
            return Err(MetricError::ParseIntError(string_of(&pairs[i].0), string_of(&pairs[i].1)));
        }
        i += 1;
    }
    Ok(pairs)
}

/// The value of the last record named `key`.
fn read_counter(pairs: &Vec<(Vec<char>, Vec<char>)>, key: &str) -> (r: Option<i64>)
    ensures
        r == counter_field(pairs.deep_view(), key@),
{
    match find_pair(pairs, key) {
        None => None,
        Some(t) => parse_i64(&t),
    }
}


/// The IPv6 counters of `/proc/<pid>/net/snmp6`.
#[derive(Debug, Clone)]
pub struct ProcessNetSnmp6 {
    pub ip6_in_receives: Option<i64>,
    pub ip6_in_hdr_errors: Option<i64>,
    pub ip6_in_too_big_errors: Option<i64>,
    pub ip6_in_no_routes: Option<i64>,
    pub ip6_in_addr_errors: Option<i64>,
    pub ip6_in_unknown_protos: Option<i64>,
    pub ip6_in_truncated_pkts: Option<i64>,
    pub ip6_in_discards: Option<i64>,
    pub ip6_in_delivers: Option<i64>,
    pub ip6_out_forw_datagrams: Option<i64>,
    pub ip6_out_requests: Option<i64>,
    pub ip6_out_discards: Option<i64>,
    pub ip6_out_no_routes: Option<i64>,
    pub ip6_reasm_timeout: Option<i64>,
    pub ip6_reasm_reqds: Option<i64>,
    pub ip6_reasm_oks: Option<i64>,
    pub ip6_reasm_fails: Option<i64>,
    pub ip6_frag_oks: Option<i64>,
    pub ip6_frag_fails: Option<i64>,
    pub ip6_frag_creates: Option<i64>,
    pub ip6_in_mcast_pkts: Option<i64>,
    pub ip6_out_mcast_pkts: Option<i64>,
    pub ip6_in_octets: Option<i64>,
    pub ip6_out_octets: Option<i64>,
    pub ip6_in_mcast_octets: Option<i64>,
    pub ip6_out_mcast_octets: Option<i64>,
    pub ip6_in_bcast_octets: Option<i64>,
    pub ip6_out_bcast_octets: Option<i64>,
    pub ip6_in_no_ect_pkts: Option<i64>,
    pub ip6_in_ect1_pkts: Option<i64>,
    pub ip6_in_ect0_pkts: Option<i64>,
    pub ip6_in_ce_pkts: Option<i64>,
    pub ip6_out_transmits: Option<i64>,
    pub icmp6_in_msgs: Option<i64>,
    pub icmp6_in_errors: Option<i64>,
    pub icmp6_out_msgs: Option<i64>,
    pub icmp6_out_errors: Option<i64>,
    pub icmp6_in_csum_errors: Option<i64>,
    pub icmp6_out_rate_limit_host: Option<i64>,
    pub icmp6_in_dest_unreachs: Option<i64>,
    pub icmp6_in_pkt_too_bigs: Option<i64>,
    pub icmp6_in_time_excds: Option<i64>,
    pub icmp6_in_parm_problems: Option<i64>,
    pub icmp6_in_echos: Option<i64>,
    pub icmp6_in_echo_replies: Option<i64>,
    pub icmp6_in_group_memb_queries: Option<i64>,
    pub icmp6_in_group_memb_responses: Option<i64>,
    pub icmp6_in_group_memb_reductions: Option<i64>,
    pub icmp6_in_router_solicits: Option<i64>,
    pub icmp6_in_router_advertisements: Option<i64>,
    pub icmp6_in_neighbor_solicits: Option<i64>,
    pub icmp6_in_neighbor_advertisements: Option<i64>,
    pub icmp6_in_redirects: Option<i64>,
    pub icmp6_in_mldv2_reports: Option<i64>,
    pub icmp6_out_dest_unreachs: Option<i64>,
    pub icmp6_out_pkt_too_bigs: Option<i64>,
    pub icmp6_out_time_excds: Option<i64>,
    pub icmp6_out_parm_problems: Option<i64>,
    pub icmp6_out_echos: Option<i64>,
    pub icmp6_out_echo_replies: Option<i64>,
    pub icmp6_out_group_memb_queries: Option<i64>,
    pub icmp6_out_group_memb_responses: Option<i64>,
    pub icmp6_out_group_memb_reductions: Option<i64>,
    pub icmp6_out_router_solicits: Option<i64>,
    pub icmp6_out_router_advertisements: Option<i64>,
    pub icmp6_out_neighbor_solicits: Option<i64>,
    pub icmp6_out_neighbor_advertisements: Option<i64>,
    pub icmp6_out_redirects: Option<i64>,
    pub icmp6_out_mldv2_reports: Option<i64>,
    pub icmp6_in_type1: Option<i64>,
    pub icmp6_in_type134: Option<i64>,
    pub icmp6_in_type135: Option<i64>,
    pub icmp6_in_type136: Option<i64>,
    pub icmp6_in_type143: Option<i64>,
    pub icmp6_out_type133: Option<i64>,
    pub icmp6_out_type135: Option<i64>,
    pub icmp6_out_type136: Option<i64>,
    pub icmp6_out_type143: Option<i64>,
    pub udp6_in_datagrams: Option<i64>,
    pub udp6_no_ports: Option<i64>,
    pub udp6_in_errors: Option<i64>,
    pub udp6_out_datagrams: Option<i64>,
    pub udp6_rcvbuf_errors: Option<i64>,
    pub udp6_sndbuf_errors: Option<i64>,
    pub udp6_in_csum_errors: Option<i64>,
    pub udp6_ignored_multi: Option<i64>,
    pub udp6_mem_mrrors: Option<i64>,
    pub udp_lite6_in_datagrams: Option<i64>,
    pub udp_lite6_no_ports: Option<i64>,
    pub udp_lite6_in_errors: Option<i64>,
    pub udp_lite6_out_datagrams: Option<i64>,
    pub udp_lite6_rcvbuf_errors: Option<i64>,
    pub udp_lite6_sndbuf_errors: Option<i64>,
    pub udp_lite6_in_csum_errors: Option<i64>,
    pub udp_lite6_mem_errors: Option<i64>,
}

impl ProcessNetSnmp6 {
    /// Each field holds what the records give its name.
    pub open spec fn read_from(&self, pairs: Seq<PairView>) -> bool {
        self.ip6_in_receives == counter_field(pairs, "Ip6InReceives"@)
            && self.ip6_in_hdr_errors == counter_field(pairs, "Ip6InHdrErrors"@)
            && self.ip6_in_too_big_errors == counter_field(pairs, "Ip6InTooBigErrors"@)
            && self.ip6_in_no_routes == counter_field(pairs, "Ip6InNoRoutes"@)
            && self.ip6_in_addr_errors == counter_field(pairs, "Ip6InAddrErrors"@)
            && self.ip6_in_unknown_protos == counter_field(pairs, "Ip6InUnknownProtos"@)
            && self.ip6_in_truncated_pkts == counter_field(pairs, "Ip6InTruncatedPkts"@)
            && self.ip6_in_discards == counter_field(pairs, "Ip6InDiscards"@)
            && self.ip6_in_delivers == counter_field(pairs, "Ip6InDelivers"@)
            && self.ip6_out_forw_datagrams == counter_field(pairs, "Ip6OutForwDatagrams"@)
            && self.ip6_out_requests == counter_field(pairs, "Ip6OutRequests"@)
            && self.ip6_out_discards == counter_field(pairs, "Ip6OutDiscards"@)
            && self.ip6_out_no_routes == counter_field(pairs, "Ip6OutNoRoutes"@)
            && self.ip6_reasm_timeout == counter_field(pairs, "Ip6ReasmTimeout"@)
            && self.ip6_reasm_reqds == counter_field(pairs, "Ip6ReasmReqds"@)
            && self.ip6_reasm_oks == counter_field(pairs, "Ip6ReasmOKs"@)
            && self.ip6_reasm_fails == counter_field(pairs, "Ip6ReasmFails"@)
            && self.ip6_frag_oks == counter_field(pairs, "Ip6FragOKs"@)
            && self.ip6_frag_fails == counter_field(pairs, "Ip6FragFails"@)
            && self.ip6_frag_creates == counter_field(pairs, "Ip6FragCreates"@)
            && self.ip6_in_mcast_pkts == counter_field(pairs, "Ip6InMcastPkts"@)
            && self.ip6_out_mcast_pkts == counter_field(pairs, "Ip6OutMcastPkts"@)
            && self.ip6_in_octets == counter_field(pairs, "Ip6InOctets"@)
            && self.ip6_out_octets == counter_field(pairs, "Ip6OutOctets"@)
            && self.ip6_in_mcast_octets == counter_field(pairs, "Ip6InMcastOctets"@)
            && self.ip6_out_mcast_octets == counter_field(pairs, "Ip6OutMcastOctets"@)
            && self.ip6_in_bcast_octets == counter_field(pairs, "Ip6InBcastOctets"@)
            && self.ip6_out_bcast_octets == counter_field(pairs, "Ip6OutBcastOctets"@)
            && self.ip6_in_no_ect_pkts == counter_field(pairs, "Ip6InNoECTPkts"@)
            && self.ip6_in_ect1_pkts == counter_field(pairs, "Ip6InECT1Pkts"@)
            && self.ip6_in_ect0_pkts == counter_field(pairs, "Ip6InECT0Pkts"@)
            && self.ip6_in_ce_pkts == counter_field(pairs, "Ip6InCEPkts"@)
            && self.ip6_out_transmits == counter_field(pairs, "Ip6OutTransmits"@)
            && self.icmp6_in_msgs == counter_field(pairs, "Icmp6InMsgs"@)
            && self.icmp6_in_errors == counter_field(pairs, "Icmp6InErrors"@)
            && self.icmp6_out_msgs == counter_field(pairs, "Icmp6OutMsgs"@)
            && self.icmp6_out_errors == counter_field(pairs, "Icmp6OutErrors"@)
            && self.icmp6_in_csum_errors == counter_field(pairs, "Icmp6InCsumErrors"@)
            && self.icmp6_out_rate_limit_host == counter_field(pairs, "Icmp6OutRateLimitHost"@)
            && self.icmp6_in_dest_unreachs == counter_field(pairs, "Icmp6InDestUnreachs"@)
            && self.icmp6_in_pkt_too_bigs == counter_field(pairs, "Icmp6InPktTooBigs"@)
            && self.icmp6_in_time_excds == counter_field(pairs, "Icmp6InTimeExcds"@)
            && self.icmp6_in_parm_problems == counter_field(pairs, "Icmp6InParmProblems"@)
            && self.icmp6_in_echos == counter_field(pairs, "Icmp6InEchos"@)
            && self.icmp6_in_echo_replies == counter_field(pairs, "Icmp6InEchoReplies"@)
            && self.icmp6_in_group_memb_queries == counter_field(pairs, "Icmp6InGroupMembQueries"@)
            && self.icmp6_in_group_memb_responses == counter_field(pairs, "Icmp6InGroupMembResponses"@)
            && self.icmp6_in_group_memb_reductions == counter_field(pairs, "Icmp6InGroupMembReductions"@)
            && self.icmp6_in_router_solicits == counter_field(pairs, "Icmp6InRouterSolicits"@)
            && self.icmp6_in_router_advertisements == counter_field(pairs, "Icmp6InRouterAdvertisements"@)
            && self.icmp6_in_neighbor_solicits == counter_field(pairs, "Icmp6InNeighborSolicits"@)
            && self.icmp6_in_neighbor_advertisements == counter_field(pairs, "Icmp6InNeighborAdvertisements"@)
            && self.icmp6_in_redirects == counter_field(pairs, "Icmp6InRedirects"@)
            && self.icmp6_in_mldv2_reports == counter_field(pairs, "Icmp6InMLDv2Reports"@)
            && self.icmp6_out_dest_unreachs == counter_field(pairs, "Icmp6OutDestUnreachs"@)
            && self.icmp6_out_pkt_too_bigs == counter_field(pairs, "Icmp6OutPktTooBigs"@)
            && self.icmp6_out_time_excds == counter_field(pairs, "Icmp6OutTimeExcds"@)
            && self.icmp6_out_parm_problems == counter_field(pairs, "Icmp6OutParmProblems"@)
            && self.icmp6_out_echos == counter_field(pairs, "Icmp6OutEchos"@)
            && self.icmp6_out_echo_replies == counter_field(pairs, "Icmp6OutEchoReplies"@)
            && self.icmp6_out_group_memb_queries == counter_field(pairs, "Icmp6OutGroupMembQueries"@)
            && self.icmp6_out_group_memb_responses == counter_field(pairs, "Icmp6OutGroupMembResponses"@)
            && self.icmp6_out_group_memb_reductions == counter_field(pairs, "Icmp6OutGroupMembReductions"@)
            && self.icmp6_out_router_solicits == counter_field(pairs, "Icmp6OutRouterSolicits"@)
            && self.icmp6_out_router_advertisements == counter_field(pairs, "Icmp6OutRouterAdvertisements"@)
            && self.icmp6_out_neighbor_solicits == counter_field(pairs, "Icmp6OutNeighborSolicits"@)
            && self.icmp6_out_neighbor_advertisements == counter_field(pairs, "Icmp6OutNeighborAdvertisements"@)
            && self.icmp6_out_redirects == counter_field(pairs, "Icmp6OutRedirects"@)
            && self.icmp6_out_mldv2_reports == counter_field(pairs, "Icmp6OutMLDv2Reports"@)
            && self.icmp6_in_type1 == counter_field(pairs, "Icmp6InType1"@)
            && self.icmp6_in_type134 == counter_field(pairs, "Icmp6InType134"@)
            && self.icmp6_in_type135 == counter_field(pairs, "Icmp6InType135"@)
            && self.icmp6_in_type136 == counter_field(pairs, "Icmp6InType136"@)
            && self.icmp6_in_type143 == counter_field(pairs, "Icmp6InType143"@)
            && self.icmp6_out_type133 == counter_field(pairs, "Icmp6OutType133"@)
            && self.icmp6_out_type135 == counter_field(pairs, "Icmp6OutType135"@)
            && self.icmp6_out_type136 == counter_field(pairs, "Icmp6OutType136"@)
            && self.icmp6_out_type143 == counter_field(pairs, "Icmp6OutType143"@)
            && self.udp6_in_datagrams == counter_field(pairs, "Udp6InDatagrams"@)
            && self.udp6_no_ports == counter_field(pairs, "Udp6NoPorts"@)
            && self.udp6_in_errors == counter_field(pairs, "Udp6InErrors"@)
            && self.udp6_out_datagrams == counter_field(pairs, "Udp6OutDatagrams"@)
            && self.udp6_rcvbuf_errors == counter_field(pairs, "Udp6RcvbufErrors"@)
            && self.udp6_sndbuf_errors == counter_field(pairs, "Udp6SndbufErrors"@)
            && self.udp6_in_csum_errors == counter_field(pairs, "Udp6InCsumErrors"@)
            && self.udp6_ignored_multi == counter_field(pairs, "Udp6IgnoredMulti"@)
            && self.udp6_mem_mrrors == counter_field(pairs, "Udp6MemErrors"@)
            && self.udp_lite6_in_datagrams == counter_field(pairs, "UdpLite6InDatagrams"@)
            && self.udp_lite6_no_ports == counter_field(pairs, "UdpLite6NoPorts"@)
            && self.udp_lite6_in_errors == counter_field(pairs, "UdpLite6InErrors"@)
            && self.udp_lite6_out_datagrams == counter_field(pairs, "UdpLite6OutDatagrams"@)
            && self.udp_lite6_rcvbuf_errors == counter_field(pairs, "UdpLite6RcvbufErrors"@)
            && self.udp_lite6_sndbuf_errors == counter_field(pairs, "UdpLite6SndbufErrors"@)
            && self.udp_lite6_in_csum_errors == counter_field(pairs, "UdpLite6InCsumErrors"@)
            && self.udp_lite6_mem_errors == counter_field(pairs, "UdpLite6MemErrors"@)
    }

    /// Every field at its value before anything is read.
    pub open spec fn is_blank(&self) -> bool {
        self.ip6_in_receives is None
            && self.ip6_in_hdr_errors is None
            && self.ip6_in_too_big_errors is None
            && self.ip6_in_no_routes is None
            && self.ip6_in_addr_errors is None
            && self.ip6_in_unknown_protos is None
            && self.ip6_in_truncated_pkts is None
            && self.ip6_in_discards is None
            && self.ip6_in_delivers is None
            && self.ip6_out_forw_datagrams is None
            && self.ip6_out_requests is None
            && self.ip6_out_discards is None
            && self.ip6_out_no_routes is None
            && self.ip6_reasm_timeout is None
            && self.ip6_reasm_reqds is None
            && self.ip6_reasm_oks is None
            && self.ip6_reasm_fails is None
            && self.ip6_frag_oks is None
            && self.ip6_frag_fails is None
            && self.ip6_frag_creates is None
            && self.ip6_in_mcast_pkts is None
            && self.ip6_out_mcast_pkts is None
            && self.ip6_in_octets is None
            && self.ip6_out_octets is None
            && self.ip6_in_mcast_octets is None
            && self.ip6_out_mcast_octets is None
            && self.ip6_in_bcast_octets is None
            && self.ip6_out_bcast_octets is None
            && self.ip6_in_no_ect_pkts is None
            && self.ip6_in_ect1_pkts is None
            && self.ip6_in_ect0_pkts is None
            && self.ip6_in_ce_pkts is None
            && self.ip6_out_transmits is None
            && self.icmp6_in_msgs is None
            && self.icmp6_in_errors is None
            && self.icmp6_out_msgs is None
            && self.icmp6_out_errors is None
            && self.icmp6_in_csum_errors is None
            && self.icmp6_out_rate_limit_host is None
            && self.icmp6_in_dest_unreachs is None
            && self.icmp6_in_pkt_too_bigs is None
            && self.icmp6_in_time_excds is None
            && self.icmp6_in_parm_problems is None
            && self.icmp6_in_echos is None
            && self.icmp6_in_echo_replies is None
            && self.icmp6_in_group_memb_queries is None
            && self.icmp6_in_group_memb_responses is None
            && self.icmp6_in_group_memb_reductions is None
            && self.icmp6_in_router_solicits is None
            && self.icmp6_in_router_advertisements is None
            && self.icmp6_in_neighbor_solicits is None
            && self.icmp6_in_neighbor_advertisements is None
            && self.icmp6_in_redirects is None
            && self.icmp6_in_mldv2_reports is None
            && self.icmp6_out_dest_unreachs is None
            && self.icmp6_out_pkt_too_bigs is None
            && self.icmp6_out_time_excds is None
            && self.icmp6_out_parm_problems is None
            && self.icmp6_out_echos is None
            && self.icmp6_out_echo_replies is None
            && self.icmp6_out_group_memb_queries is None
            && self.icmp6_out_group_memb_responses is None
            && self.icmp6_out_group_memb_reductions is None
            && self.icmp6_out_router_solicits is None
            && self.icmp6_out_router_advertisements is None
            && self.icmp6_out_neighbor_solicits is None
            && self.icmp6_out_neighbor_advertisements is None
            && self.icmp6_out_redirects is None
            && self.icmp6_out_mldv2_reports is None
            && self.icmp6_in_type1 is None
            && self.icmp6_in_type134 is None
            && self.icmp6_in_type135 is None
            && self.icmp6_in_type136 is None
            && self.icmp6_in_type143 is None
            && self.icmp6_out_type133 is None
            && self.icmp6_out_type135 is None
            && self.icmp6_out_type136 is None
            && self.icmp6_out_type143 is None
            && self.udp6_in_datagrams is None
            && self.udp6_no_ports is None
            && self.udp6_in_errors is None
            && self.udp6_out_datagrams is None
            && self.udp6_rcvbuf_errors is None
            && self.udp6_sndbuf_errors is None
            && self.udp6_in_csum_errors is None
            && self.udp6_ignored_multi is None
            && self.udp6_mem_mrrors is None
            && self.udp_lite6_in_datagrams is None
            && self.udp_lite6_no_ports is None
            && self.udp_lite6_in_errors is None
            && self.udp_lite6_out_datagrams is None
            && self.udp_lite6_rcvbuf_errors is None
            && self.udp_lite6_sndbuf_errors is None
            && self.udp_lite6_in_csum_errors is None
            && self.udp_lite6_mem_errors is None
    }

    pub fn new() -> (r: Self)
        ensures
            r.is_blank(),
    {
        ProcessNetSnmp6 {
            ip6_in_receives: None,
            ip6_in_hdr_errors: None,
            ip6_in_too_big_errors: None,
            ip6_in_no_routes: None,
            ip6_in_addr_errors: None,
            ip6_in_unknown_protos: None,
            ip6_in_truncated_pkts: None,
            ip6_in_discards: None,
            ip6_in_delivers: None,
            ip6_out_forw_datagrams: None,
            ip6_out_requests: None,
            ip6_out_discards: None,
            ip6_out_no_routes: None,
            ip6_reasm_timeout: None,
            ip6_reasm_reqds: None,
            ip6_reasm_oks: None,
            ip6_reasm_fails: None,
            ip6_frag_oks: None,
            ip6_frag_fails: None,
            ip6_frag_creates: None,
            ip6_in_mcast_pkts: None,
            ip6_out_mcast_pkts: None,
            ip6_in_octets: None,
            ip6_out_octets: None,
            ip6_in_mcast_octets: None,
            ip6_out_mcast_octets: None,
            ip6_in_bcast_octets: None,
            ip6_out_bcast_octets: None,
            ip6_in_no_ect_pkts: None,
            ip6_in_ect1_pkts: None,
            ip6_in_ect0_pkts: None,
            ip6_in_ce_pkts: None,
            ip6_out_transmits: None,
            icmp6_in_msgs: None,
            icmp6_in_errors: None,
            icmp6_out_msgs: None,
            icmp6_out_errors: None,
            icmp6_in_csum_errors: None,
            icmp6_out_rate_limit_host: None,
            icmp6_in_dest_unreachs: None,
            icmp6_in_pkt_too_bigs: None,
            icmp6_in_time_excds: None,
            icmp6_in_parm_problems: None,
            icmp6_in_echos: None,
            icmp6_in_echo_replies: None,
            icmp6_in_group_memb_queries: None,
            icmp6_in_group_memb_responses: None,
            icmp6_in_group_memb_reductions: None,
            icmp6_in_router_solicits: None,
            icmp6_in_router_advertisements: None,
            icmp6_in_neighbor_solicits: None,
            icmp6_in_neighbor_advertisements: None,
            icmp6_in_redirects: None,
            icmp6_in_mldv2_reports: None,
            icmp6_out_dest_unreachs: None,
            icmp6_out_pkt_too_bigs: None,
            icmp6_out_time_excds: None,
            icmp6_out_parm_problems: None,
            icmp6_out_echos: None,
            icmp6_out_echo_replies: None,
            icmp6_out_group_memb_queries: None,
            icmp6_out_group_memb_responses: None,
            icmp6_out_group_memb_reductions: None,
            icmp6_out_router_solicits: None,
            icmp6_out_router_advertisements: None,
            icmp6_out_neighbor_solicits: None,
            icmp6_out_neighbor_advertisements: None,
            icmp6_out_redirects: None,
            icmp6_out_mldv2_reports: None,
            icmp6_in_type1: None,
            icmp6_in_type134: None,
            icmp6_in_type135: None,
            icmp6_in_type136: None,
            icmp6_in_type143: None,
            icmp6_out_type133: None,
            icmp6_out_type135: None,
            icmp6_out_type136: None,
            icmp6_out_type143: None,
            udp6_in_datagrams: None,
            udp6_no_ports: None,
            udp6_in_errors: None,
            udp6_out_datagrams: None,
            udp6_rcvbuf_errors: None,
            udp6_sndbuf_errors: None,
            udp6_in_csum_errors: None,
            udp6_ignored_multi: None,
            udp6_mem_mrrors: None,
            udp_lite6_in_datagrams: None,
            udp_lite6_no_ports: None,
            udp_lite6_in_errors: None,
            udp_lite6_out_datagrams: None,
            udp_lite6_rcvbuf_errors: None,
            udp_lite6_sndbuf_errors: None,
            udp_lite6_in_csum_errors: None,
            udp_lite6_mem_errors: None,
        }
    }

    /// The counters of `/proc/<pid>/net/snmp6`, given as its lines.
    #[verifier::rlimit(50)]
    pub fn parse(lines: &Vec<String>) -> (r: Result<Self, MetricError>)
        ensures
            match pairs_of(lines.deep_view(), ' ') {
                Some(ps) => (r is Ok <==> all_counters(ps)) && (r is Ok ==> r->Ok_0.read_from(ps)),
                None => r is Err,
            },
    {
        let pairs = check_counters(lines)?;
        Ok(ProcessNetSnmp6 {
            ip6_in_receives: read_counter(&pairs, "Ip6InReceives"),
            ip6_in_hdr_errors: read_counter(&pairs, "Ip6InHdrErrors"),
            ip6_in_too_big_errors: read_counter(&pairs, "Ip6InTooBigErrors"),
            ip6_in_no_routes: read_counter(&pairs, "Ip6InNoRoutes"),
            ip6_in_addr_errors: read_counter(&pairs, "Ip6InAddrErrors"),
            ip6_in_unknown_protos: read_counter(&pairs, "Ip6InUnknownProtos"),
            ip6_in_truncated_pkts: read_counter(&pairs, "Ip6InTruncatedPkts"),
            ip6_in_discards: read_counter(&pairs, "Ip6InDiscards"),
            ip6_in_delivers: read_counter(&pairs, "Ip6InDelivers"),
            ip6_out_forw_datagrams: read_counter(&pairs, "Ip6OutForwDatagrams"),
            ip6_out_requests: read_counter(&pairs, "Ip6OutRequests"),
            ip6_out_discards: read_counter(&pairs, "Ip6OutDiscards"),
            ip6_out_no_routes: read_counter(&pairs, "Ip6OutNoRoutes"),
            ip6_reasm_timeout: read_counter(&pairs, "Ip6ReasmTimeout"),
            ip6_reasm_reqds: read_counter(&pairs, "Ip6ReasmReqds"),
            ip6_reasm_oks: read_counter(&pairs, "Ip6ReasmOKs"),
            ip6_reasm_fails: read_counter(&pairs, "Ip6ReasmFails"),
            ip6_frag_oks: read_counter(&pairs, "Ip6FragOKs"),
            ip6_frag_fails: read_counter(&pairs, "Ip6FragFails"),
            ip6_frag_creates: read_counter(&pairs, "Ip6FragCreates"),
            ip6_in_mcast_pkts: read_counter(&pairs, "Ip6InMcastPkts"),
            ip6_out_mcast_pkts: read_counter(&pairs, "Ip6OutMcastPkts"),
            ip6_in_octets: read_counter(&pairs, "Ip6InOctets"),
            ip6_out_octets: read_counter(&pairs, "Ip6OutOctets"),
            ip6_in_mcast_octets: read_counter(&pairs, "Ip6InMcastOctets"),
            ip6_out_mcast_octets: read_counter(&pairs, "Ip6OutMcastOctets"),
            ip6_in_bcast_octets: read_counter(&pairs, "Ip6InBcastOctets"),
            ip6_out_bcast_octets: read_counter(&pairs, "Ip6OutBcastOctets"),
            ip6_in_no_ect_pkts: read_counter(&pairs, "Ip6InNoECTPkts"),
            ip6_in_ect1_pkts: read_counter(&pairs, "Ip6InECT1Pkts"),
            ip6_in_ect0_pkts: read_counter(&pairs, "Ip6InECT0Pkts"),
            ip6_in_ce_pkts: read_counter(&pairs, "Ip6InCEPkts"),
            ip6_out_transmits: read_counter(&pairs, "Ip6OutTransmits"),
            icmp6_in_msgs: read_counter(&pairs, "Icmp6InMsgs"),
            icmp6_in_errors: read_counter(&pairs, "Icmp6InErrors"),
            icmp6_out_msgs: read_counter(&pairs, "Icmp6OutMsgs"),
            icmp6_out_errors: read_counter(&pairs, "Icmp6OutErrors"),
            icmp6_in_csum_errors: read_counter(&pairs, "Icmp6InCsumErrors"),
            icmp6_out_rate_limit_host: read_counter(&pairs, "Icmp6OutRateLimitHost"),
            icmp6_in_dest_unreachs: read_counter(&pairs, "Icmp6InDestUnreachs"),
            icmp6_in_pkt_too_bigs: read_counter(&pairs, "Icmp6InPktTooBigs"),
            icmp6_in_time_excds: read_counter(&pairs, "Icmp6InTimeExcds"),
            icmp6_in_parm_problems: read_counter(&pairs, "Icmp6InParmProblems"),
            icmp6_in_echos: read_counter(&pairs, "Icmp6InEchos"),
            icmp6_in_echo_replies: read_counter(&pairs, "Icmp6InEchoReplies"),
            icmp6_in_group_memb_queries: read_counter(&pairs, "Icmp6InGroupMembQueries"),
            icmp6_in_group_memb_responses: read_counter(&pairs, "Icmp6InGroupMembResponses"),
            icmp6_in_group_memb_reductions: read_counter(&pairs, "Icmp6InGroupMembReductions"),
            icmp6_in_router_solicits: read_counter(&pairs, "Icmp6InRouterSolicits"),
            icmp6_in_router_advertisements: read_counter(&pairs, "Icmp6InRouterAdvertisements"),
            icmp6_in_neighbor_solicits: read_counter(&pairs, "Icmp6InNeighborSolicits"),
            icmp6_in_neighbor_advertisements: read_counter(&pairs, "Icmp6InNeighborAdvertisements"),
            icmp6_in_redirects: read_counter(&pairs, "Icmp6InRedirects"),
            icmp6_in_mldv2_reports: read_counter(&pairs, "Icmp6InMLDv2Reports"),
            icmp6_out_dest_unreachs: read_counter(&pairs, "Icmp6OutDestUnreachs"),
            icmp6_out_pkt_too_bigs: read_counter(&pairs, "Icmp6OutPktTooBigs"),
            icmp6_out_time_excds: read_counter(&pairs, "Icmp6OutTimeExcds"),
            icmp6_out_parm_problems: read_counter(&pairs, "Icmp6OutParmProblems"),
            icmp6_out_echos: read_counter(&pairs, "Icmp6OutEchos"),
            icmp6_out_echo_replies: read_counter(&pairs, "Icmp6OutEchoReplies"),
            icmp6_out_group_memb_queries: read_counter(&pairs, "Icmp6OutGroupMembQueries"),
            icmp6_out_group_memb_responses: read_counter(&pairs, "Icmp6OutGroupMembResponses"),
            icmp6_out_group_memb_reductions: read_counter(&pairs, "Icmp6OutGroupMembReductions"),
            icmp6_out_router_solicits: read_counter(&pairs, "Icmp6OutRouterSolicits"),
            icmp6_out_router_advertisements: read_counter(&pairs, "Icmp6OutRouterAdvertisements"),
            icmp6_out_neighbor_solicits: read_counter(&pairs, "Icmp6OutNeighborSolicits"),
            icmp6_out_neighbor_advertisements: read_counter(&pairs, "Icmp6OutNeighborAdvertisements"),
            icmp6_out_redirects: read_counter(&pairs, "Icmp6OutRedirects"),
            icmp6_out_mldv2_reports: read_counter(&pairs, "Icmp6OutMLDv2Reports"),
            icmp6_in_type1: read_counter(&pairs, "Icmp6InType1"),
            icmp6_in_type134: read_counter(&pairs, "Icmp6InType134"),
            icmp6_in_type135: read_counter(&pairs, "Icmp6InType135"),
            icmp6_in_type136: read_counter(&pairs, "Icmp6InType136"),
            icmp6_in_type143: read_counter(&pairs, "Icmp6InType143"),
            icmp6_out_type133: read_counter(&pairs, "Icmp6OutType133"),
            icmp6_out_type135: read_counter(&pairs, "Icmp6OutType135"),
            icmp6_out_type136: read_counter(&pairs, "Icmp6OutType136"),
            icmp6_out_type143: read_counter(&pairs, "Icmp6OutType143"),
            udp6_in_datagrams: read_counter(&pairs, "Udp6InDatagrams"),
            udp6_no_ports: read_counter(&pairs, "Udp6NoPorts"),
            udp6_in_errors: read_counter(&pairs, "Udp6InErrors"),
            udp6_out_datagrams: read_counter(&pairs, "Udp6OutDatagrams"),
            udp6_rcvbuf_errors: read_counter(&pairs, "Udp6RcvbufErrors"),
            udp6_sndbuf_errors: read_counter(&pairs, "Udp6SndbufErrors"),
            udp6_in_csum_errors: read_counter(&pairs, "Udp6InCsumErrors"),
            udp6_ignored_multi: read_counter(&pairs, "Udp6IgnoredMulti"),
            udp6_mem_mrrors: read_counter(&pairs, "Udp6MemErrors"),
            udp_lite6_in_datagrams: read_counter(&pairs, "UdpLite6InDatagrams"),
            udp_lite6_no_ports: read_counter(&pairs, "UdpLite6NoPorts"),
            udp_lite6_in_errors: read_counter(&pairs, "UdpLite6InErrors"),
            udp_lite6_out_datagrams: read_counter(&pairs, "UdpLite6OutDatagrams"),
            udp_lite6_rcvbuf_errors: read_counter(&pairs, "UdpLite6RcvbufErrors"),
            udp_lite6_sndbuf_errors: read_counter(&pairs, "UdpLite6SndbufErrors"),
            udp_lite6_in_csum_errors: read_counter(&pairs, "UdpLite6InCsumErrors"),
            udp_lite6_mem_errors: read_counter(&pairs, "UdpLite6MemErrors"),
        })
    }
}

} // verus!
