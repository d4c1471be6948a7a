//! SAS phys of `/sys/class/sas_phy`. Their link rates are decimal fractions
//! of Gbit/s and are kept as written.
use vstd::prelude::*;
use crate::attrs::{
    attr_i64, attr_i64_ok, attr_text, attr_text_or_empty, read_i64, read_text, read_text_or_empty,
};
use crate::error::MetricError;
use crate::kv::PairView;
use crate::pattern::{regex_compiles, regex_matches, text_matches};
use crate::sas::PORT_PATTERN;
use crate::text::{chars_of, pieces, split_range, split_words, string_of, strings_of, words};

verus! {

/// `s` with each blank that follows a comma taken out, as replacing `", "`
/// by `","` does.
pub open spec fn comma_spaces_closed(s: Seq<char>) -> Seq<char>
    decreases s.len(),
{
    if s.len() == 0 {
        s
    } else if s.len() >= 2 && s.last() == ' ' && s[s.len() - 2] == ',' {
        comma_spaces_closed(s.drop_last())
    } else {
        comma_spaces_closed(s.drop_last()).push(s.last())
    }
}

/// A protocol list such as `sata, smp, ssp`: its names, none where the
/// attribute is absent.
pub open spec fn protocol_list(text: Option<Seq<char>>) -> Seq<Seq<char>> {
    match text {
        Some(s) => pieces(comma_spaces_closed(s), ','),
        None => Seq::empty(),
    }
}

/// The rate that a link rate attribute (`12.0 Gbit`) writes: its first word,
/// empty where there is none.
pub open spec fn rate_text(text: Option<Seq<char>>) -> Seq<char> {
    match text {
        Some(s) => if words(s).len() > 0 {
            words(s)[0]
        } else {
            Seq::empty()
        },
        None => Seq::empty(),
    }
}

/// A count that is absent reads as 0.
pub open spec fn count_or_zero(v: Option<i64>) -> i64 {
    match v {
        Some(n) => n,
        None => 0,
    }
}

fn close_comma_spaces(s: &Vec<char>) -> (r: Vec<char>)
    ensures
        r@ == comma_spaces_closed(s@),
{
    let mut r: Vec<char> = Vec::new();
    let mut i: usize = 0;
    assert(s@.take(0) =~= Seq::<char>::empty());
    while i < s.len()
        invariant
            i <= s.len(),
            r@ == comma_spaces_closed(s@.take(i as int)),
        decreases s.len() - i,
    {
        let ghost next = s@.take(i + 1);
        assert(next.drop_last() =~= s@.take(i as int));
        assert(next.last() == s@[i as int]);
        if i >= 1 {
            assert(next[next.len() - 2] == s@[i - 1]);
        }
        if !(i >= 1 && s[i] == ' ' && s[i - 1] == ',') {
            r.push(s[i]);
        }
        i += 1;
    }
    assert(s@.take(s.len() as int) =~= s@);
    r
}

fn read_protocols(attrs: &Vec<(String, String)>, name: &str) -> (r: Vec<String>)
    ensures
        r.deep_view() == protocol_list(attr_text(attrs.deep_view(), name@)),
{
    match read_text(attrs, name) {
        Some(t) => {
            let c = close_comma_spaces(&chars_of(t.as_str()));
            assert(c@.subrange(0, c.len() as int) =~= c@);
            strings_of(&split_range(&c, 0, c.len(), ','))
        },
        None => {
            let v: Vec<String> = Vec::new();
            assert(v.deep_view() =~= Seq::<Seq<char>>::empty());
            v
        },
    }
}

fn read_rate(attrs: &Vec<(String, String)>, name: &str) -> (r: String)
    ensures
        r@ == rate_text(attr_text(attrs.deep_view(), name@)),
{
    match read_text(attrs, name) {
        Some(t) => {
            let w = split_words(&chars_of(t.as_str()));
            if w.len() > 0 {
                assert(w.deep_view()[0] == w@[0]@);
                string_of(&w[0])
            } else {
                String::new()
            }
        },
        None => String::new(),
    }
}

fn read_count(attrs: &Vec<(String, String)>, name: &str) -> (r: Result<i64, MetricError>)
    ensures
        r is Ok <==> attr_i64_ok(attrs.deep_view(), name@),
        r is Ok ==> r->Ok_0 == count_or_zero(attr_i64(attrs.deep_view(), name@)),
{
    match read_i64(attrs, name) {
        Ok(Some(v)) => Ok(v),
        Ok(None) => Ok(0),
        Err(e) => Err(e),
    }
}

/// A SAS phy: its address, port, device type, protocols, error counts and
/// link rates (as written, in Gbit/s).
#[derive(Debug, Clone)]
pub struct SASPhy {
    pub sas_address: String,
    pub sas_port: String,
    pub device_type: String,
    pub initiator_port_protocols: Vec<String>,
    pub invalid_dword_count: i64,
    pub loss_of_dword_sync_count: i64,
    pub maximum_linkrate: String,
    pub maximum_linkrate_hw: String,
    pub minimum_linkrate: String,
    pub minimum_linkrate_hw: String,
    pub negotiated_linkrate: String,
    pub phy_identifier: String,
    pub phy_reset_problem_count: i64,
    pub running_disparity_error_count: i64,
    pub target_port_protocols: Vec<String>,
}

impl SASPhy {
    /// Every count that is given is an `i64`.
    pub open spec fn readable(attrs: Seq<PairView>) -> bool {
        attr_i64_ok(attrs, "invalid_dword_count"@) && attr_i64_ok(attrs, "loss_of_dword_sync_count"@)
            && attr_i64_ok(attrs, "phy_reset_problem_count"@) && attr_i64_ok(
            attrs,
            "running_disparity_error_count"@,
        )
    }

    /// Each field holds what its attribute gives; the port is the name the
    /// `device/port` link points to, kept where it matches `PORT_PATTERN`.
    pub open spec fn read_from(&self, attrs: Seq<PairView>, port: Option<Seq<char>>) -> bool {
        &&& self.sas_address@ == attr_text_or_empty(attrs, "sas_address"@)
        &&& self.sas_port@ == (match port {
            Some(p) => if regex_matches(PORT_PATTERN@, p) {
                p
            } else {
                Seq::empty()
            },
            None => Seq::empty(),
        })
        &&& self.device_type@ == attr_text_or_empty(attrs, "device_type"@)
        &&& self.initiator_port_protocols.deep_view() == protocol_list(
            attr_text(attrs, "initiator_port_protocols"@),
        )
        &&& self.invalid_dword_count == count_or_zero(attr_i64(attrs, "invalid_dword_count"@))
        &&& self.loss_of_dword_sync_count == count_or_zero(attr_i64(attrs, "loss_of_dword_sync_count"@))
        &&& self.maximum_linkrate@ == rate_text(attr_text(attrs, "maximum_linkrate"@))
        &&& self.maximum_linkrate_hw@ == rate_text(attr_text(attrs, "maximum_linkrate_hw"@))
        &&& self.minimum_linkrate@ == rate_text(attr_text(attrs, "minimum_linkrate"@))
        &&& self.minimum_linkrate_hw@ == rate_text(attr_text(attrs, "minimum_linkrate_hw"@))
        &&& self.negotiated_linkrate@ == rate_text(attr_text(attrs, "negotiated_linkrate"@))
        &&& self.phy_identifier@ == attr_text_or_empty(attrs, "phy_identifier"@)
        &&& self.phy_reset_problem_count == count_or_zero(attr_i64(attrs, "phy_reset_problem_count"@))
        &&& self.running_disparity_error_count == count_or_zero(
            attr_i64(attrs, "running_disparity_error_count"@),
        )
        &&& self.target_port_protocols.deep_view() == protocol_list(
            attr_text(attrs, "target_port_protocols"@),
        )
    }

    /// The phy whose directory holds the attribute files `attrs` and whose
    /// `device/port` link, where there is one, points to `port`.
    pub fn from_attrs(attrs: &Vec<(String, String)>, port: Option<String>) -> (r: Result<Self, MetricError>)
        ensures
            r is Ok <==> (Self::readable(attrs.deep_view()) && (port is None || regex_compiles(
                PORT_PATTERN@,
            ))),
            r is Ok ==> r->Ok_0.read_from(attrs.deep_view(), port.deep_view()),
    {
        let invalid_dword_count = read_count(attrs, "invalid_dword_count")?;
        let loss_of_dword_sync_count = read_count(attrs, "loss_of_dword_sync_count")?;
        let phy_reset_problem_count = read_count(attrs, "phy_reset_problem_count")?;
        let running_disparity_error_count = read_count(attrs, "running_disparity_error_count")?;
        let sas_port = match port {
            Some(p) => {
                if text_matches(PORT_PATTERN, p.as_str())? {
                    p
                } else {
                    String::new()
                }
            },
            None => String::new(),
        };
        Ok(SASPhy {
            sas_address: read_text_or_empty(attrs, "sas_address"),
            sas_port,
            device_type: read_text_or_empty(attrs, "device_type"),
            initiator_port_protocols: read_protocols(attrs, "initiator_port_protocols"),
            invalid_dword_count,
            loss_of_dword_sync_count,
            maximum_linkrate: read_rate(attrs, "maximum_linkrate"),
            maximum_linkrate_hw: read_rate(attrs, "maximum_linkrate_hw"),
            minimum_linkrate: read_rate(attrs, "minimum_linkrate"),
            minimum_linkrate_hw: read_rate(attrs, "minimum_linkrate_hw"),
            negotiated_linkrate: read_rate(attrs, "negotiated_linkrate"),
            phy_identifier: read_text_or_empty(attrs, "phy_identifier"),
            phy_reset_problem_count,
            running_disparity_error_count,
            target_port_protocols: read_protocols(attrs, "target_port_protocols"),
        })
    }
}

} // verus!
