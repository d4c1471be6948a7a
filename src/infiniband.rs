//! InfiniBand devices of `/sys/class/infiniband`, their ports and counters.
use std::collections::HashMap;
use vstd::prelude::*;
use crate::attrs::{attr_text, attr_text_or_empty, attr_u64, attr_u64_ok, read_text, read_text_or_empty, read_u64};
use crate::error::{parse_error, MetricError};
use crate::kv::PairView;
use crate::text::{chars_of, parse_u64, pieces, split_range, split_words, string_of, trim, trimmed, u64_of, words};

verus! {

/// Bytes per second in one Gb/s.
pub const BYTES_PER_GBIT: u64 = 125000000;

/// A port state as `state` and `phys_state` write it, `<id>: <name>`.
/// `Some(None)` where the text is absent or not of that form, `None` where
/// the id is not a number.
pub open spec fn port_state(text: Option<Seq<char>>) -> Option<Option<(u64, Seq<char>)>> {
    match text {
        None => Some(None),
        Some(t) => {
            let p = pieces(trimmed(t), ':');
            if p.len() != 2 {
                Some(None)
            } else {
                match u64_of(p[0]) {
                    Some(id) => Some(Some((id, trimmed(p[1])))),
                    None => None,
                }
            }
        },
    }
}

/// The rate of a port in bytes per second, from `rate` (`<Gb/s> Gb/sec ...`):
/// `Some(0)` where the text is absent or has fewer than two words, `None` where
/// the first word is not a number or the bytes do not fit in a `u64`.
pub open spec fn port_rate(text: Option<Seq<char>>) -> Option<u64> {
    match text {
        None => Some(0),
        Some(t) => {
            let w = words(t);
            if w.len() < 2 {
                Some(0)
            } else {
                match u64_of(w[0]) {
                    Some(g) => if g * BYTES_PER_GBIT <= u64::MAX {
                        Some((g * BYTES_PER_GBIT) as u64)
                    } else {
                        None
                    },
                    None => None,
                }
            }
        },
    }
}

fn read_state(attrs: &Vec<(String, String)>, name: &str) -> (r: Result<Option<(u64, String)>, MetricError>)
    ensures
        match port_state(attr_text(attrs.deep_view(), name@)) {
            Some(v) => r is Ok && r->Ok_0.deep_view() == v,
            None => r is Err,
        },
{
    match read_text(attrs, name) {
        None => Ok(None),
        Some(t) => {
            let c = trim(&chars_of(t.as_str()));
            let (a, b) = (0usize, c.len());
            assert(c@.subrange(0, c.len() as int) =~= c@);
            let p = split_range(&c, a, b, ':');
            proof {
                assert(trimmed(trimmed(t@)) == trimmed(t@)) by {
                    crate::text::lemma_trimmed_idempotent(t@);
                }
            }
            if p.len() != 2 {
                return Ok(None);
            }
            assert(p.deep_view()[0] == p@[0]@ && p.deep_view()[1] == p@[1]@);
            match parse_u64(&p[0]) {
                Some(id) => Ok(Some((id, string_of(&trim(&p[1]))))),
                None => Err(MetricError::ParseIntError(string_of(&chars_of(name)), t)),
            }
        },
    }
}

fn read_rate(attrs: &Vec<(String, String)>) -> (r: Result<u64, MetricError>)
    ensures
        match port_rate(attr_text(attrs.deep_view(), "rate"@)) {
            Some(v) => r == Ok::<u64, MetricError>(v),
            None => r is Err,
        },
{
    match read_text(attrs, "rate") {
        None => Ok(0),
        Some(t) => {
            let w = split_words(&chars_of(t.as_str()));
            if w.len() < 2 {
                return Ok(0);
            }
            assert(w.deep_view()[0] == w@[0]@);
            match parse_u64(&w[0]) {
                Some(g) => {
                    if g > u64::MAX / BYTES_PER_GBIT {
                        return Err(MetricError::ParseIntError(string_of(&chars_of("rate")), t));
                    }
                    Ok(g * BYTES_PER_GBIT)
                },
                None => Err(MetricError::ParseIntError(string_of(&chars_of("rate")), t)),
            }
        },
    }
}

/// A port of an InfiniBand device, `/sys/class/infiniband/<name>/ports/<port>`.
#[derive(Debug, Clone)]
pub struct InfiniBandPort {
    pub name: String,
    pub port: u64,
    pub state: String,
    pub state_id: u64,
    pub phys_state: String,
    pub phys_state_id: u64,
    /// In bytes per second.
    pub rate: u64,
    pub counters: InfiniBandCounters,
    pub hw_counters: InfiniBandHwCounters,
}

impl InfiniBandPort {
    pub fn new() -> (r: Self)
        ensures
            r.name@.len() == 0,
            r.port == 0,
            r.state@.len() == 0,
            r.state_id == 0,
            r.phys_state@.len() == 0,
            r.phys_state_id == 0,
            r.rate == 0,
            r.counters.is_blank(),
            r.hw_counters.is_blank(),
    {
        InfiniBandPort {
            name: String::new(),
            port: 0,
            state: String::new(),
            state_id: 0,
            phys_state: String::new(),
            phys_state_id: 0,
            rate: 0,
            counters: InfiniBandCounters::new(),
            hw_counters: InfiniBandHwCounters::new(),
        }
    }

    /// Port `port` of device `name`, from the attribute files of the port
    /// directory and of its `counters_ext`, `counters` and `hw_counters`.
    pub fn from_attrs(
        name: String,
        port: &str,
        attrs: &Vec<(String, String)>,
        ext: &Vec<(String, String)>,
        counters: &Vec<(String, String)>,
        hw: &Vec<(String, String)>,
    ) -> (r: Result<Self, MetricError>)
        ensures
            u64_of(port@) is None ==> r is Err && parse_error(r->Err_0, port@, port@),
            r is Ok <==> (u64_of(port@) is Some
                && port_state(attr_text(attrs.deep_view(), "state"@)) is Some
                && port_state(attr_text(attrs.deep_view(), "phys_state"@)) is Some
                && port_rate(attr_text(attrs.deep_view(), "rate"@)) is Some
                && InfiniBandCounters::readable(ext.deep_view(), counters.deep_view())
                && InfiniBandHwCounters::readable(hw.deep_view())),
            r is Ok ==> ({
                let p = r->Ok_0;
                &&& p.name@ == name@
                &&& Some(p.port) == u64_of(port@)
                &&& match port_state(attr_text(attrs.deep_view(), "state"@)) {
                    Some(Some((id, s))) => p.state_id == id && p.state@ == s,
                    _ => p.state_id == 0 && p.state@.len() == 0,
                }
                &&& match port_state(attr_text(attrs.deep_view(), "phys_state"@)) {
                    Some(Some((id, s))) => p.phys_state_id == id && p.phys_state@ == s,
                    _ => p.phys_state_id == 0 && p.phys_state@.len() == 0,
                }
                &&& Some(p.rate) == port_rate(attr_text(attrs.deep_view(), "rate"@))
                &&& p.counters.read_from(ext.deep_view(), counters.deep_view())
                &&& p.hw_counters.read_from(hw.deep_view())
            }),
    {
        let number = match parse_u64(&chars_of(port)) {
            Some(n) => n,
            None => {
                return Err(MetricError::ParseIntError(string_of(&chars_of(port)), string_of(&chars_of(port))));
            },
        };
        let (state_id, state) = match read_state(attrs, "state")? {
            Some((id, s)) => (id, s),
            None => (0, String::new()),
        };
        let (phys_state_id, phys_state) = match read_state(attrs, "phys_state")? {
            Some((id, s)) => (id, s),
            None => (0, String::new()),
        };
        let rate = read_rate(attrs)?;
        let counters = InfiniBandCounters::from_attrs(ext, counters)?;
        let hw_counters = InfiniBandHwCounters::from_attrs(hw)?;
        Ok(InfiniBandPort {
            name,
            port: number,
            state,
            state_id,
            phys_state,
            phys_state_id,
            rate,
            counters,
            hw_counters,
        })
    }
}

/// The ports keyed by their numbers, a later port replacing an earlier one
/// with the same number.
pub open spec fn ports_by_number(ports: Seq<InfiniBandPort>) -> Map<u64, InfiniBandPort>
    decreases ports.len(),
{
    if ports.len() == 0 {
        Map::empty()
    } else {
        ports_by_number(ports.drop_last()).insert(ports.last().port, ports.last())
    }
}

/// An InfiniBand device of `/sys/class/infiniband`, with its ports.
#[derive(Debug, Clone)]
pub struct InfiniBandDevice {
    pub name: String,
    pub board_id: String,
    pub firmware_version: String,
    pub hca_type: String,
    /// The ports, keyed by port number.
    pub ports: HashMap<u64, InfiniBandPort>,
}

impl InfiniBandDevice {
    pub fn new() -> (r: Self)
        ensures
            r.name@.len() == 0,
            r.board_id@.len() == 0,
            r.firmware_version@.len() == 0,
            r.hca_type@.len() == 0,
            r.ports@ == Map::<u64, InfiniBandPort>::empty(),
    {
        InfiniBandDevice {
            name: String::new(),
            board_id: String::new(),
            firmware_version: String::new(),
            hca_type: String::new(),
            ports: HashMap::new(),
        }
    }

    /// Device `name` with the attribute files `attrs` and its ports, keyed
    /// by port number.
    pub fn from_attrs(name: String, attrs: &Vec<(String, String)>, ports: Vec<InfiniBandPort>) -> (r: Self)
        ensures
            r.name@ == name@,
            r.board_id@ == attr_text_or_empty(attrs.deep_view(), "board_id"@),
            r.firmware_version@ == attr_text_or_empty(attrs.deep_view(), "fw_ver"@),
            r.hca_type@ == attr_text_or_empty(attrs.deep_view(), "hca_type"@),
            r.ports@ == ports_by_number(ports@),
    {
        InfiniBandDevice {
            name,
            board_id: read_text_or_empty(attrs, "board_id"),
            firmware_version: read_text_or_empty(attrs, "fw_ver"),
            hca_type: read_text_or_empty(attrs, "hca_type"),
            ports: by_number(ports),
        }
    }
}



/// The ports keyed by their numbers.
fn by_number(ports: Vec<InfiniBandPort>) -> (r: HashMap<u64, InfiniBandPort>)
    ensures
        r@ == ports_by_number(ports@),
{
    broadcast use vstd::std_specs::hash::group_hash_axioms;

    let ghost all = ports@;
    let n = ports.len();
    assert(all.len() == n);
    let mut rest = ports;
    let mut m: HashMap<u64, InfiniBandPort> = HashMap::new();
    let mut i: usize = 0;
    assert(all.take(0) =~= Seq::<InfiniBandPort>::empty());
    while rest.len() > 0
        invariant
            i + rest.len() == all.len(),
            all.len() <= usize::MAX,
            rest@ == all.skip(i as int),
            m@ == ports_by_number(all.take(i as int)),
        decreases rest.len(),
    {
        let p = rest.remove(0);
        assert(p == all[i as int]);
        assert(all.take(i + 1).drop_last() =~= all.take(i as int));
        assert(rest@ =~= all.skip(i + 1));
        let number = p.port;
        m.insert(number, p);
        i += 1;
    }
    assert(all.take(all.len() as int) =~= all);
    m
}

/// The hardware counters of a port, `ports/<n>/hw_counters`.
#[derive(Debug, Clone)]
pub struct InfiniBandHwCounters {
    pub duplicate_request: Option<u64>,
    pub implied_nak_seq_err: Option<u64>,
    pub lifespan: Option<u64>,
    pub local_ack_timeout_err: Option<u64>,
    pub np_cnp_sent: Option<u64>,
    pub np_ecn_marked_roce_packets: Option<u64>,
    pub out_of_buffer: Option<u64>,
    pub out_of_sequence: Option<u64>,
    pub packet_seq_err: Option<u64>,
    pub req_cqe_error: Option<u64>,
    pub req_cqe_flush_error: Option<u64>,
    pub req_remote_access_errors: Option<u64>,
    pub req_remote_invalid_request: Option<u64>,
    pub resp_cqe_error: Option<u64>,
    pub resp_cqe_flush_error: Option<u64>,
    pub resp_local_length_error: Option<u64>,
    pub resp_remote_access_errors: Option<u64>,
    pub rnr_nak_retry_err: Option<u64>,
    pub roce_adp_retrans: Option<u64>,
    pub roce_adp_retrans_to: Option<u64>,
    pub roce_slow_restart: Option<u64>,
    pub roce_slow_restart_cnps: Option<u64>,
    pub roce_slow_restart_trans: Option<u64>,
    pub rp_cnp_handled: Option<u64>,
    pub rp_cnp_ignored: Option<u64>,
    pub rx_atomic_requests: Option<u64>,
    pub rx_dct_connect: Option<u64>,
    pub rx_icrc_encapsulated: Option<u64>,
    pub rx_read_requests: Option<u64>,
    pub rx_write_requests: Option<u64>,
}

impl InfiniBandHwCounters {
    /// Each field holds what the attribute files give it.
    pub open spec fn read_from(&self, attrs: Seq<PairView>) -> bool {
        self.duplicate_request == attr_u64(attrs, "duplicate_request"@)
            && self.implied_nak_seq_err == attr_u64(attrs, "implied_nak_seq_err"@)
            && self.lifespan == attr_u64(attrs, "lifespan"@)
            && self.local_ack_timeout_err == attr_u64(attrs, "local_ack_timeout_err"@)
            && self.np_cnp_sent == attr_u64(attrs, "np_cnp_sent"@)
            && self.np_ecn_marked_roce_packets == attr_u64(attrs, "np_ecn_marked_roce_packets"@)
            && self.out_of_buffer == attr_u64(attrs, "out_of_buffer"@)
            && self.out_of_sequence == attr_u64(attrs, "out_of_sequence"@)
            && self.packet_seq_err == attr_u64(attrs, "packet_seq_err"@)
            && self.req_cqe_error == attr_u64(attrs, "req_cqe_error"@)
            && self.req_cqe_flush_error == attr_u64(attrs, "req_cqe_flush_error"@)
            && self.req_remote_access_errors == attr_u64(attrs, "req_remote_access_errors"@)
            && self.req_remote_invalid_request == attr_u64(attrs, "req_remote_invalid_request"@)
            && self.resp_cqe_error == attr_u64(attrs, "resp_cqe_error"@)
            && self.resp_cqe_flush_error == attr_u64(attrs, "resp_cqe_flush_error"@)
            && self.resp_local_length_error == attr_u64(attrs, "resp_local_length_error"@)
            && self.resp_remote_access_errors == attr_u64(attrs, "resp_remote_access_errors"@)
            && self.rnr_nak_retry_err == attr_u64(attrs, "rnr_nak_retry_err"@)
            && self.roce_adp_retrans == attr_u64(attrs, "roce_adp_retrans"@)
            && self.roce_adp_retrans_to == attr_u64(attrs, "roce_adp_retrans_to"@)
            && self.roce_slow_restart == attr_u64(attrs, "roce_slow_restart"@)
            && self.roce_slow_restart_cnps == attr_u64(attrs, "roce_slow_restart_cnps"@)
            && self.roce_slow_restart_trans == attr_u64(attrs, "roce_slow_restart_trans"@)
            && self.rp_cnp_handled == attr_u64(attrs, "rp_cnp_handled"@)
            && self.rp_cnp_ignored == attr_u64(attrs, "rp_cnp_ignored"@)
            && self.rx_atomic_requests == attr_u64(attrs, "rx_atomic_requests"@)
            && self.rx_dct_connect == attr_u64(attrs, "rx_dct_connect"@)
            && self.rx_icrc_encapsulated == attr_u64(attrs, "rx_icrc_encapsulated"@)
            && self.rx_read_requests == attr_u64(attrs, "rx_read_requests"@)
            && self.rx_write_requests == attr_u64(attrs, "rx_write_requests"@)
    }

    /// Every numeric attribute that is given parses.
    pub open spec fn readable(attrs: Seq<PairView>) -> bool {
        attr_u64_ok(attrs, "duplicate_request"@)
            && attr_u64_ok(attrs, "implied_nak_seq_err"@)
            && attr_u64_ok(attrs, "lifespan"@)
            && attr_u64_ok(attrs, "local_ack_timeout_err"@)
            && attr_u64_ok(attrs, "np_cnp_sent"@)
            && attr_u64_ok(attrs, "np_ecn_marked_roce_packets"@)
            && attr_u64_ok(attrs, "out_of_buffer"@)
            && attr_u64_ok(attrs, "out_of_sequence"@)
            && attr_u64_ok(attrs, "packet_seq_err"@)
            && attr_u64_ok(attrs, "req_cqe_error"@)
            && attr_u64_ok(attrs, "req_cqe_flush_error"@)
            && attr_u64_ok(attrs, "req_remote_access_errors"@)
            && attr_u64_ok(attrs, "req_remote_invalid_request"@)
            && attr_u64_ok(attrs, "resp_cqe_error"@)
            && attr_u64_ok(attrs, "resp_cqe_flush_error"@)
            && attr_u64_ok(attrs, "resp_local_length_error"@)
            && attr_u64_ok(attrs, "resp_remote_access_errors"@)
            && attr_u64_ok(attrs, "rnr_nak_retry_err"@)
            && attr_u64_ok(attrs, "roce_adp_retrans"@)
            && attr_u64_ok(attrs, "roce_adp_retrans_to"@)
            && attr_u64_ok(attrs, "roce_slow_restart"@)
            && attr_u64_ok(attrs, "roce_slow_restart_cnps"@)
            && attr_u64_ok(attrs, "roce_slow_restart_trans"@)
            && attr_u64_ok(attrs, "rp_cnp_handled"@)
            && attr_u64_ok(attrs, "rp_cnp_ignored"@)
            && attr_u64_ok(attrs, "rx_atomic_requests"@)
            && attr_u64_ok(attrs, "rx_dct_connect"@)
            && attr_u64_ok(attrs, "rx_icrc_encapsulated"@)
            && attr_u64_ok(attrs, "rx_read_requests"@)
            && attr_u64_ok(attrs, "rx_write_requests"@)
    }

    /// Every field empty.
    pub open spec fn is_blank(&self) -> bool {
        self.duplicate_request is None
            && self.implied_nak_seq_err is None
            && self.lifespan is None
            && self.local_ack_timeout_err is None
            && self.np_cnp_sent is None
            && self.np_ecn_marked_roce_packets is None
            && self.out_of_buffer is None
            && self.out_of_sequence is None
            && self.packet_seq_err is None
            && self.req_cqe_error is None
            && self.req_cqe_flush_error is None
            && self.req_remote_access_errors is None
            && self.req_remote_invalid_request is None
            && self.resp_cqe_error is None
            && self.resp_cqe_flush_error is None
            && self.resp_local_length_error is None
            && self.resp_remote_access_errors is None
            && self.rnr_nak_retry_err is None
            && self.roce_adp_retrans is None
            && self.roce_adp_retrans_to is None
            && self.roce_slow_restart is None
            && self.roce_slow_restart_cnps is None
            && self.roce_slow_restart_trans is None
            && self.rp_cnp_handled is None
            && self.rp_cnp_ignored is None
            && self.rx_atomic_requests is None
            && self.rx_dct_connect is None
            && self.rx_icrc_encapsulated is None
            && self.rx_read_requests is None
            && self.rx_write_requests is None
    }

    pub fn new() -> (r: Self)
        ensures
            r.is_blank(),
    {
        InfiniBandHwCounters {
            duplicate_request: None,
            implied_nak_seq_err: None,
            lifespan: None,
            local_ack_timeout_err: None,
            np_cnp_sent: None,
            np_ecn_marked_roce_packets: None,
            out_of_buffer: None,
            out_of_sequence: None,
            packet_seq_err: None,
            req_cqe_error: None,
            req_cqe_flush_error: None,
            req_remote_access_errors: None,
            req_remote_invalid_request: None,
            resp_cqe_error: None,
            resp_cqe_flush_error: None,
            resp_local_length_error: None,
            resp_remote_access_errors: None,
            rnr_nak_retry_err: None,
            roce_adp_retrans: None,
            roce_adp_retrans_to: None,
            roce_slow_restart: None,
            roce_slow_restart_cnps: None,
            roce_slow_restart_trans: None,
            rp_cnp_handled: None,
            rp_cnp_ignored: None,
            rx_atomic_requests: None,
            rx_dct_connect: None,
            rx_icrc_encapsulated: None,
            rx_read_requests: None,
            rx_write_requests: None,
        }
    }

    /// The counters whose files are `attrs`.
    pub fn from_attrs(attrs: &Vec<(String, String)>) -> (r: Result<Self, MetricError>)
        ensures
            r is Ok <==> Self::readable(attrs.deep_view()),
            r is Ok ==> r->Ok_0.read_from(attrs.deep_view()),
    {
        let duplicate_request = match read_u64(attrs, "duplicate_request") {
            Ok(v) => v,
            Err(e) => return Err(e),
        };
        let implied_nak_seq_err = match read_u64(attrs, "implied_nak_seq_err") {
            Ok(v) => v,
            Err(e) => return Err(e),
        };
        let lifespan = match read_u64(attrs, "lifespan") {
            Ok(v) => v,
            Err(e) => return Err(e),
        };
        let local_ack_timeout_err = match read_u64(attrs, "local_ack_timeout_err") {
            Ok(v) => v,
            Err(e) => return Err(e),
        };
        let np_cnp_sent = match read_u64(attrs, "np_cnp_sent") {
            Ok(v) => v,
            Err(e) => return Err(e),
        };
        let np_ecn_marked_roce_packets = match read_u64(attrs, "np_ecn_marked_roce_packets") {
            Ok(v) => v,
            Err(e) => return Err(e),
        };
        let out_of_buffer = match read_u64(attrs, "out_of_buffer") {
            Ok(v) => v,
            Err(e) => return Err(e),
        };
        let out_of_sequence = match read_u64(attrs, "out_of_sequence") {
            Ok(v) => v,
            Err(e) => return Err(e),
        };
        let packet_seq_err = match read_u64(attrs, "packet_seq_err") {
            Ok(v) => v,
            Err(e) => return Err(e),
        };
        let req_cqe_error = match read_u64(attrs, "req_cqe_error") {
            Ok(v) => v,
            Err(e) => return Err(e),
        };
        let req_cqe_flush_error = match read_u64(attrs, "req_cqe_flush_error") {
            Ok(v) => v,
            Err(e) => return Err(e),
        };
        let req_remote_access_errors = match read_u64(attrs, "req_remote_access_errors") {
            Ok(v) => v,
            Err(e) => return Err(e),
        };
        let req_remote_invalid_request = match read_u64(attrs, "req_remote_invalid_request") {
            Ok(v) => v,
            Err(e) => return Err(e),
        };
        let resp_cqe_error = match read_u64(attrs, "resp_cqe_error") {
            Ok(v) => v,
            Err(e) => return Err(e),
        };
        let resp_cqe_flush_error = match read_u64(attrs, "resp_cqe_flush_error") {
            Ok(v) => v,
            Err(e) => return Err(e),
        };
        let resp_local_length_error = match read_u64(attrs, "resp_local_length_error") {
            Ok(v) => v,
            Err(e) => return Err(e),
        };
        let resp_remote_access_errors = match read_u64(attrs, "resp_remote_access_errors") {
            Ok(v) => v,
            Err(e) => return Err(e),
        };
        let rnr_nak_retry_err = match read_u64(attrs, "rnr_nak_retry_err") {
            Ok(v) => v,
            Err(e) => return Err(e),
        };
        let roce_adp_retrans = match read_u64(attrs, "roce_adp_retrans") {
            Ok(v) => v,
            Err(e) => return Err(e),
        };
        let roce_adp_retrans_to = match read_u64(attrs, "roce_adp_retrans_to") {
            Ok(v) => v,
            Err(e) => return Err(e),
        };
        let roce_slow_restart = match read_u64(attrs, "roce_slow_restart") {
            Ok(v) => v,
            Err(e) => return Err(e),
        };
        let roce_slow_restart_cnps = match read_u64(attrs, "roce_slow_restart_cnps") {
            Ok(v) => v,
            Err(e) => return Err(e),
        };
        let roce_slow_restart_trans = match read_u64(attrs, "roce_slow_restart_trans") {
            Ok(v) => v,
            Err(e) => return Err(e),
        };
        let rp_cnp_handled = match read_u64(attrs, "rp_cnp_handled") {
            Ok(v) => v,
            Err(e) => return Err(e),
        };
        let rp_cnp_ignored = match read_u64(attrs, "rp_cnp_ignored") {
            Ok(v) => v,
            Err(e) => return Err(e),
        };
        let rx_atomic_requests = match read_u64(attrs, "rx_atomic_requests") {
            Ok(v) => v,
            Err(e) => return Err(e),
        };
        let rx_dct_connect = match read_u64(attrs, "rx_dct_connect") {
            Ok(v) => v,
            Err(e) => return Err(e),
        };
        let rx_icrc_encapsulated = match read_u64(attrs, "rx_icrc_encapsulated") {
            Ok(v) => v,
            Err(e) => return Err(e),
        };
        let rx_read_requests = match read_u64(attrs, "rx_read_requests") {
            Ok(v) => v,
            Err(e) => return Err(e),
        };
        let rx_write_requests = match read_u64(attrs, "rx_write_requests") {
            Ok(v) => v,
            Err(e) => return Err(e),
        };
        Ok(InfiniBandHwCounters {
            duplicate_request,
            implied_nak_seq_err,
            lifespan,
            local_ack_timeout_err,
            np_cnp_sent,
            np_ecn_marked_roce_packets,
            out_of_buffer,
            out_of_sequence,
            packet_seq_err,
            req_cqe_error,
            req_cqe_flush_error,
            req_remote_access_errors,
            req_remote_invalid_request,
            resp_cqe_error,
            resp_cqe_flush_error,
            resp_local_length_error,
            resp_remote_access_errors,
            rnr_nak_retry_err,
            roce_adp_retrans,
            roce_adp_retrans_to,
            roce_slow_restart,
            roce_slow_restart_cnps,
            roce_slow_restart_trans,
            rp_cnp_handled,
            rp_cnp_ignored,
            rx_atomic_requests,
            rx_dct_connect,
            rx_icrc_encapsulated,
            rx_read_requests,
            rx_write_requests,
        })
    }
}

/// The counters of a port: `ports/<n>/counters_ext` for the legacy ones (`ext`), `ports/<n>/counters` for the others (`attrs`).
#[derive(Debug, Clone)]
pub struct InfiniBandCounters {
    pub legacy_port_multicast_rcv_packets: Option<u64>,
    pub legacy_port_multicast_xmit_packets: Option<u64>,
    pub legacy_port_rcv_data_64: Option<u64>,
    pub legacy_port_rcv_packets_64: Option<u64>,
    pub legacy_port_unicast_rcv_packets: Option<u64>,
    pub legacy_port_unicast_xmit_packets: Option<u64>,
    pub legacy_port_xmit_data_64: Option<u64>,
    pub legacy_port_xmit_packets_64: Option<u64>,
    pub excessive_buffer_overrun_errors: Option<u64>,
    pub link_downed: Option<u64>,
    pub link_error_recovery: Option<u64>,
    pub local_link_integrity_errors: Option<u64>,
    pub multicast_rcv_packets: Option<u64>,
    pub multicast_xmit_packets: Option<u64>,
    pub port_rcv_constraint_errors: Option<u64>,
    pub port_rcv_data: Option<u64>,
    pub port_rcv_discards: Option<u64>,
    pub port_rcv_errors: Option<u64>,
    pub port_rcv_packets: Option<u64>,
    pub port_rcv_remote_physical_errors: Option<u64>,
    pub port_rcv_switch_relay_errors: Option<u64>,
    pub port_xmit_constraint_errors: Option<u64>,
    pub port_xmit_data: Option<u64>,
    pub port_xmit_discards: Option<u64>,
    pub port_xmit_packets: Option<u64>,
    pub port_xmit_wait: Option<u64>,
    pub symbol_error: Option<u64>,
    pub unicast_rcv_packets: Option<u64>,
    pub unicast_xmit_packets: Option<u64>,
    pub vl15_dropped: Option<u64>,
}

impl InfiniBandCounters {
    /// Each field holds what the attribute files give it.
    pub open spec fn read_from(&self, ext: Seq<PairView>, attrs: Seq<PairView>) -> bool {
        self.legacy_port_multicast_rcv_packets == attr_u64(ext, "port_multicast_rcv_packets"@)
            && self.legacy_port_multicast_xmit_packets == attr_u64(ext, "port_multicast_xmit_packets"@)
            && self.legacy_port_rcv_data_64 == attr_u64(ext, "_port_rcv_data_64"@)
            && self.legacy_port_rcv_packets_64 == attr_u64(ext, "port_rcv_packets_64"@)
            && self.legacy_port_unicast_rcv_packets == attr_u64(ext, "port_unicast_rcv_packets"@)
            && self.legacy_port_unicast_xmit_packets == attr_u64(ext, "port_unicast_xmit_packets"@)
            && self.legacy_port_xmit_data_64 == attr_u64(ext, "port_xmit_data_64"@)
            && self.legacy_port_xmit_packets_64 == attr_u64(ext, "port_xmit_packets_64"@)
            && self.excessive_buffer_overrun_errors == attr_u64(attrs, "excessive_buffer_overrun_errors"@)
            && self.link_downed == attr_u64(attrs, "link_downed"@)
            && self.link_error_recovery == attr_u64(attrs, "link_error_recovery"@)
            && self.local_link_integrity_errors == attr_u64(attrs, "local_link_integrity_errors"@)
            && self.multicast_rcv_packets == attr_u64(attrs, "multicast_rcv_packets"@)
            && self.multicast_xmit_packets == attr_u64(attrs, "multicast_xmit_packets"@)
            && self.port_rcv_constraint_errors == attr_u64(attrs, "port_rcv_constraint_errors"@)
            && self.port_rcv_data == attr_u64(attrs, "port_rcv_data"@)
            && self.port_rcv_discards == attr_u64(attrs, "port_rcv_discards"@)
            && self.port_rcv_errors == attr_u64(attrs, "port_rcv_errors"@)
            && self.port_rcv_packets == attr_u64(attrs, "port_rcv_packets"@)
            && self.port_rcv_remote_physical_errors == attr_u64(attrs, "port_rcv_remote_physical_errors"@)
            && self.port_rcv_switch_relay_errors == attr_u64(attrs, "port_rcv_switch_relay_errors"@)
            && self.port_xmit_constraint_errors == attr_u64(attrs, "port_xmit_constraint_errors"@)
            && self.port_xmit_data == attr_u64(attrs, "port_xmit_data"@)
            && self.port_xmit_discards == attr_u64(attrs, "port_xmit_discards"@)
            && self.port_xmit_packets == attr_u64(attrs, "port_xmit_packets"@)
            && self.port_xmit_wait == attr_u64(attrs, "port_xmit_wait"@)
            && self.symbol_error == attr_u64(attrs, "symbol_error"@)
            && self.unicast_rcv_packets == attr_u64(attrs, "unicast_rcv_packets"@)
            && self.unicast_xmit_packets == attr_u64(attrs, "unicast_xmit_packets"@)
            && self.vl15_dropped == attr_u64(attrs, "VL15_dropped"@)
    }

    /// Every numeric attribute that is given parses.
    pub open spec fn readable(ext: Seq<PairView>, attrs: Seq<PairView>) -> bool {
        attr_u64_ok(ext, "port_multicast_rcv_packets"@)
            && attr_u64_ok(ext, "port_multicast_xmit_packets"@)
            && attr_u64_ok(ext, "_port_rcv_data_64"@)
            && attr_u64_ok(ext, "port_rcv_packets_64"@)
            && attr_u64_ok(ext, "port_unicast_rcv_packets"@)
            && attr_u64_ok(ext, "port_unicast_xmit_packets"@)
            && attr_u64_ok(ext, "port_xmit_data_64"@)
            && attr_u64_ok(ext, "port_xmit_packets_64"@)
            && attr_u64_ok(attrs, "excessive_buffer_overrun_errors"@)
            && attr_u64_ok(attrs, "link_downed"@)
            && attr_u64_ok(attrs, "link_error_recovery"@)
            && attr_u64_ok(attrs, "local_link_integrity_errors"@)
            && attr_u64_ok(attrs, "multicast_rcv_packets"@)
            && attr_u64_ok(attrs, "multicast_xmit_packets"@)
            && attr_u64_ok(attrs, "port_rcv_constraint_errors"@)
            && attr_u64_ok(attrs, "port_rcv_data"@)
            && attr_u64_ok(attrs, "port_rcv_discards"@)
            && attr_u64_ok(attrs, "port_rcv_errors"@)
            && attr_u64_ok(attrs, "port_rcv_packets"@)
            && attr_u64_ok(attrs, "port_rcv_remote_physical_errors"@)
            && attr_u64_ok(attrs, "port_rcv_switch_relay_errors"@)
            && attr_u64_ok(attrs, "port_xmit_constraint_errors"@)
            && attr_u64_ok(attrs, "port_xmit_data"@)
            && attr_u64_ok(attrs, "port_xmit_discards"@)
            && attr_u64_ok(attrs, "port_xmit_packets"@)
            && attr_u64_ok(attrs, "port_xmit_wait"@)
            && attr_u64_ok(attrs, "symbol_error"@)
            && attr_u64_ok(attrs, "unicast_rcv_packets"@)
            && attr_u64_ok(attrs, "unicast_xmit_packets"@)
            && attr_u64_ok(attrs, "VL15_dropped"@)
    }

    /// Every field empty.
    pub open spec fn is_blank(&self) -> bool {
        self.legacy_port_multicast_rcv_packets is None
            && self.legacy_port_multicast_xmit_packets is None
            && self.legacy_port_rcv_data_64 is None
            && self.legacy_port_rcv_packets_64 is None
            && self.legacy_port_unicast_rcv_packets is None
            && self.legacy_port_unicast_xmit_packets is None
            && self.legacy_port_xmit_data_64 is None
            && self.legacy_port_xmit_packets_64 is None
            && self.excessive_buffer_overrun_errors is None
            && self.link_downed is None
            && self.link_error_recovery is None
            && self.local_link_integrity_errors is None
            && self.multicast_rcv_packets is None
            && self.multicast_xmit_packets is None
            && self.port_rcv_constraint_errors is None
            && self.port_rcv_data is None
            && self.port_rcv_discards is None
            && self.port_rcv_errors is None
            && self.port_rcv_packets is None
            && self.port_rcv_remote_physical_errors is None
            && self.port_rcv_switch_relay_errors is None
            && self.port_xmit_constraint_errors is None
            && self.port_xmit_data is None
            && self.port_xmit_discards is None
            && self.port_xmit_packets is None
            && self.port_xmit_wait is None
            && self.symbol_error is None
            && self.unicast_rcv_packets is None
            && self.unicast_xmit_packets is None
            && self.vl15_dropped is None
    }

    pub fn new() -> (r: Self)
        ensures
            r.is_blank(),
    {
        InfiniBandCounters {
            legacy_port_multicast_rcv_packets: None,
            legacy_port_multicast_xmit_packets: None,
            legacy_port_rcv_data_64: None,
            legacy_port_rcv_packets_64: None,
            legacy_port_unicast_rcv_packets: None,
            legacy_port_unicast_xmit_packets: None,
            legacy_port_xmit_data_64: None,
            legacy_port_xmit_packets_64: None,
            excessive_buffer_overrun_errors: None,
            link_downed: None,
            link_error_recovery: None,
            local_link_integrity_errors: None,
            multicast_rcv_packets: None,
            multicast_xmit_packets: None,
            port_rcv_constraint_errors: None,
            port_rcv_data: None,
            port_rcv_discards: None,
            port_rcv_errors: None,
            port_rcv_packets: None,
            port_rcv_remote_physical_errors: None,
            port_rcv_switch_relay_errors: None,
            port_xmit_constraint_errors: None,
            port_xmit_data: None,
            port_xmit_discards: None,
            port_xmit_packets: None,
            port_xmit_wait: None,
            symbol_error: None,
            unicast_rcv_packets: None,
            unicast_xmit_packets: None,
            vl15_dropped: None,
        }
    }

    /// The counters of both directories.
    pub fn from_attrs(ext: &Vec<(String, String)>, attrs: &Vec<(String, String)>) -> (r: Result<Self, MetricError>)
        ensures
            r is Ok <==> Self::readable(ext.deep_view(), attrs.deep_view()),
            r is Ok ==> r->Ok_0.read_from(ext.deep_view(), attrs.deep_view()),
    {
        let legacy_port_multicast_rcv_packets = match read_u64(ext, "port_multicast_rcv_packets") {
            Ok(v) => v,
            Err(e) => return Err(e),
        };
        let legacy_port_multicast_xmit_packets = match read_u64(ext, "port_multicast_xmit_packets") {
            Ok(v) => v,
            Err(e) => return Err(e),
        };
        let legacy_port_rcv_data_64 = match read_u64(ext, "_port_rcv_data_64") {
            Ok(v) => v,
            Err(e) => return Err(e),
        };
        let legacy_port_rcv_packets_64 = match read_u64(ext, "port_rcv_packets_64") {
            Ok(v) => v,
            Err(e) => return Err(e),
        };
        let legacy_port_unicast_rcv_packets = match read_u64(ext, "port_unicast_rcv_packets") {
            Ok(v) => v,
            Err(e) => return Err(e),
        };
        let legacy_port_unicast_xmit_packets = match read_u64(ext, "port_unicast_xmit_packets") {
            Ok(v) => v,
            Err(e) => return Err(e),
        };
        let legacy_port_xmit_data_64 = match read_u64(ext, "port_xmit_data_64") {
            Ok(v) => v,
            Err(e) => return Err(e),
        };
        let legacy_port_xmit_packets_64 = match read_u64(ext, "port_xmit_packets_64") {
            Ok(v) => v,
            Err(e) => return Err(e),
        };
        let excessive_buffer_overrun_errors = match read_u64(attrs, "excessive_buffer_overrun_errors") {
            Ok(v) => v,
            Err(e) => return Err(e),
        };
        let link_downed = match read_u64(attrs, "link_downed") {
            Ok(v) => v,
            Err(e) => return Err(e),
        };
        let link_error_recovery = match read_u64(attrs, "link_error_recovery") {
            Ok(v) => v,
            Err(e) => return Err(e),
        };
        let local_link_integrity_errors = match read_u64(attrs, "local_link_integrity_errors") {
            Ok(v) => v,
            Err(e) => return Err(e),
        };
        let multicast_rcv_packets = match read_u64(attrs, "multicast_rcv_packets") {
            Ok(v) => v,
            Err(e) => return Err(e),
        };
        let multicast_xmit_packets = match read_u64(attrs, "multicast_xmit_packets") {
            Ok(v) => v,
            Err(e) => return Err(e),
        };
        let port_rcv_constraint_errors = match read_u64(attrs, "port_rcv_constraint_errors") {
            Ok(v) => v,
            Err(e) => return Err(e),
        };
        let port_rcv_data = match read_u64(attrs, "port_rcv_data") {
            Ok(v) => v,
            Err(e) => return Err(e),
        };
        let port_rcv_discards = match read_u64(attrs, "port_rcv_discards") {
            Ok(v) => v,
            Err(e) => return Err(e),
        };
        let port_rcv_errors = match read_u64(attrs, "port_rcv_errors") {
            Ok(v) => v,
            Err(e) => return Err(e),
        };
        let port_rcv_packets = match read_u64(attrs, "port_rcv_packets") {
            Ok(v) => v,
            Err(e) => return Err(e),
        };
        let port_rcv_remote_physical_errors = match read_u64(attrs, "port_rcv_remote_physical_errors") {
            Ok(v) => v,
            Err(e) => return Err(e),
        };
        let port_rcv_switch_relay_errors = match read_u64(attrs, "port_rcv_switch_relay_errors") {
            Ok(v) => v,
            Err(e) => return Err(e),
        };
        let port_xmit_constraint_errors = match read_u64(attrs, "port_xmit_constraint_errors") {
            Ok(v) => v,
            Err(e) => return Err(e),
        };
        let port_xmit_data = match read_u64(attrs, "port_xmit_data") {
            Ok(v) => v,
            Err(e) => return Err(e),
        };
        let port_xmit_discards = match read_u64(attrs, "port_xmit_discards") {
            Ok(v) => v,
            Err(e) => return Err(e),
        };
        let port_xmit_packets = match read_u64(attrs, "port_xmit_packets") {
            Ok(v) => v,
            Err(e) => return Err(e),
        };
        let port_xmit_wait = match read_u64(attrs, "port_xmit_wait") {
            Ok(v) => v,
            Err(e) => return Err(e),
        };
        let symbol_error = match read_u64(attrs, "symbol_error") {
            Ok(v) => v,
            Err(e) => return Err(e),
        };
        let unicast_rcv_packets = match read_u64(attrs, "unicast_rcv_packets") {
            Ok(v) => v,
            Err(e) => return Err(e),
        };
        let unicast_xmit_packets = match read_u64(attrs, "unicast_xmit_packets") {
            Ok(v) => v,
            Err(e) => return Err(e),
        };
        let vl15_dropped = match read_u64(attrs, "VL15_dropped") {
            Ok(v) => v,
            Err(e) => return Err(e),
        };
        Ok(InfiniBandCounters {
            legacy_port_multicast_rcv_packets,
            legacy_port_multicast_xmit_packets,
            legacy_port_rcv_data_64,
            legacy_port_rcv_packets_64,
            legacy_port_unicast_rcv_packets,
            legacy_port_unicast_xmit_packets,
            legacy_port_xmit_data_64,
            legacy_port_xmit_packets_64,
            excessive_buffer_overrun_errors,
            link_downed,
            link_error_recovery,
            local_link_integrity_errors,
            multicast_rcv_packets,
            multicast_xmit_packets,
            port_rcv_constraint_errors,
            port_rcv_data,
            port_rcv_discards,
            port_rcv_errors,
            port_rcv_packets,
            port_rcv_remote_physical_errors,
            port_rcv_switch_relay_errors,
            port_xmit_constraint_errors,
            port_xmit_data,
            port_xmit_discards,
            port_xmit_packets,
            port_xmit_wait,
            symbol_error,
            unicast_rcv_packets,
            unicast_xmit_packets,
            vl15_dropped,
        })
    }
}

} // verus!
