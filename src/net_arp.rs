//! The ARP table of `/proc/net/arp`.
use vstd::prelude::*;
use crate::columns::col_text;
use crate::error::MetricError;
use crate::text::{
    all_digits, chars_of, digits_value, fields, hex_u64_of, parse_hex_u64, parse_u64, split_all,
    split_words, string_of, words,
};

verus! {

/// The entry is complete.
pub const ATF_COMPLETE: i32 = 0x02;

/// The entry is permanent.
pub const ATF_PERMANENT: i32 = 0x04;

/// The entry is published.
pub const ATF_PUBLISH: i32 = 0x08;

/// Trailers are requested.
pub const ATF_USE_TRAILERS: i32 = 0x10;

/// The entry is a netmask.
pub const ATF_NETMASK: i32 = 0x20;

/// The entry is not published.
pub const ATF_DONT_PUBLISH: i32 = 0x40;

/// What `mac_address::MacAddress::from_str` makes of `text`: the six bytes of
/// the address it writes, or `None` where it writes none.
pub uninterp spec fn mac_bytes_of(text: Seq<char>) -> Option<Seq<u8>>;

/// Relies on mac_address::MacAddress's FromStr, for the address that `text`
/// writes (`00:11:22:33:44:55`, with `-` or without separators), and on
/// MacAddress::bytes for its six bytes. Its source refuses any text that is
/// neither 17 nor 12 bytes long.
#[verifier::external_body]
fn parse_mac(text: &str) -> (r: Option<[u8; 6]>)
    ensures
        r is Some <==> mac_bytes_of(text@) is Some,
        r is Some ==> r->Some_0@ == mac_bytes_of(text@)->Some_0,
        !(text@.len() == 17 || text@.len() == 12) ==> r is None,
{
    text.parse::<mac_address::MacAddress>().ok().map(|m| m.bytes())
}

/// An octet of a dotted IPv4 address: one to three digits, no leading zero
/// but for `0` itself, at most 255.
pub open spec fn octet_of(t: Seq<char>) -> Option<u8> {
    if 1 <= t.len() <= 3 && all_digits(t) && !(t.len() > 1 && t[0] == '0') && digits_value(t) <= 255 {
        Some(digits_value(t) as u8)
    } else {
        None
    }
}

/// The four octets of a dotted IPv4 address.
pub open spec fn ipv4_of(text: Seq<char>) -> Option<Seq<u8>> {
    let f = fields(text, '.');
    if f.len() == 4 && octet_of(f[0]) is Some && octet_of(f[1]) is Some && octet_of(f[2]) is Some
        && octet_of(f[3]) is Some {
        Some(seq![octet_of(f[0])->Some_0, octet_of(f[1])->Some_0, octet_of(f[2])->Some_0, octet_of(f[3])->Some_0])
    } else {
        None
    }
}

fn parse_octet(t: &Vec<char>) -> (r: Option<u8>)
    ensures
        r == octet_of(t@),
{
    if t.len() < 1 || t.len() > 3 || (t.len() > 1 && t[0] == '0') {
        return None;
    }
    if t[0] == '+' {
        assert(!all_digits(t@));
        return None;
    }
    match parse_u64(t) {
        Some(v) => {
            assert(t@.len() > 0 && t@[0] != '+');
            if v <= 255 {
                Some(v as u8)
            } else {
                None
            }
        },
        None => None,
    }
}

/// The four octets of a dotted IPv4 address.
pub fn parse_ipv4(text: &Vec<char>) -> (r: Option<[u8; 4]>)
    ensures
        match ipv4_of(text@) {
            Some(o) => r is Some && r->Some_0@ == o,
            None => r is None,
        },
{
    let f = split_all(text, 0, text.len(), '.');
    assert(text@.subrange(0, text.len() as int) =~= text@);
    if f.len() != 4 {
        return None;
    }
    assert(f.deep_view()[0] == f@[0]@ && f.deep_view()[1] == f@[1]@ && f.deep_view()[2] == f@[2]@
        && f.deep_view()[3] == f@[3]@);
    let a = match parse_octet(&f[0]) {
        Some(v) => v,
        None => return None,
    };
    let b = match parse_octet(&f[1]) {
        Some(v) => v,
        None => return None,
    };
    let c = match parse_octet(&f[2]) {
        Some(v) => v,
        None => return None,
    };
    let d = match parse_octet(&f[3]) {
        Some(v) => v,
        None => return None,
    };
    let r = [a, b, c, d];
    assert(r@ =~= seq![a, b, c, d]);
    Some(r)
}

/// The flags that a hexadecimal column (`0x2`) writes, as an `i32`.
pub open spec fn flags_of(t: Seq<char>) -> Option<i32> {
    match hex_u64_of(t) {
        Some(v) => if v <= i32::MAX {
            Some(v as i32)
        } else {
            None
        },
        None => None,
    }
}

/// One entry of the ARP table.
#[derive(Debug, Clone)]
pub struct ARPEntry {
    /// The IPv4 address, octet by octet.
    pub ip_address: [u8; 4],
    /// The hardware address, byte by byte.
    pub hw_address: [u8; 6],
    pub device: String,
    pub flags: i32,
}

impl ARPEntry {
    /// A line `IP HWtype Flags HWaddress Mask Device` must have six columns,
    /// an IPv4 address, hexadecimal flags and a hardware address.
    pub open spec fn fits(w: Seq<Seq<char>>) -> bool {
        w.len() >= 6 && ipv4_of(w[0]) is Some && flags_of(w[2]) is Some && mac_bytes_of(w[3]) is Some
    }

    pub open spec fn read_from(&self, w: Seq<Seq<char>>) -> bool {
        &&& self.ip_address@ == ipv4_of(w[0])->Some_0
        &&& self.hw_address@ == mac_bytes_of(w[3])->Some_0
        &&& self.device@ == w[5]
        &&& self.flags == flags_of(w[2])->Some_0
    }

    pub fn new() -> (r: Self)
        ensures
            r.ip_address@ == seq![0u8, 0u8, 0u8, 0u8],
            r.hw_address@ == seq![0u8, 0u8, 0u8, 0u8, 0u8, 0u8],
            r.device@.len() == 0,
            r.flags == 0,
    {
        let r = ARPEntry { ip_address: [0u8; 4], hw_address: [0u8; 6], device: String::new(), flags: 0 };
        assert(r.ip_address@ =~= seq![0u8, 0u8, 0u8, 0u8]);
        assert(r.hw_address@ =~= seq![0u8, 0u8, 0u8, 0u8, 0u8, 0u8]);
        r
    }

    pub fn is_complete(&self) -> (r: bool)
        ensures
            r == (self.flags == ATF_COMPLETE),
    {
        self.flags == ATF_COMPLETE
    }

    pub fn is_permanent(&self) -> (r: bool)
        ensures
            r == (self.flags == ATF_PERMANENT),
    {
        self.flags == ATF_PERMANENT
    }

    pub fn is_publish(&self) -> (r: bool)
        ensures
            r == (self.flags == ATF_PUBLISH),
    {
        self.flags == ATF_PUBLISH
    }

    pub fn is_use_trailers(&self) -> (r: bool)
        ensures
            r == (self.flags == ATF_USE_TRAILERS),
    {
        self.flags == ATF_USE_TRAILERS
    }

    pub fn is_netmask(&self) -> (r: bool)
        ensures
            r == (self.flags == ATF_NETMASK),
    {
        self.flags == ATF_NETMASK
    }

    pub fn is_dont_publish(&self) -> (r: bool)
        ensures
            r == (self.flags == ATF_DONT_PUBLISH),
    {
        self.flags == ATF_DONT_PUBLISH
    }

    /// The entry of one line of the table.
    pub fn from_line(line: &str) -> (r: Result<Self, MetricError>)
        ensures
            r is Ok <==> Self::fits(words(line@)),
            r is Ok ==> r->Ok_0.read_from(words(line@)),
    {
        let w = split_words(&chars_of(line));
        if w.len() < 6 {
            return Err(
                MetricError::InvalidFieldNumberError(
                    string_of(&chars_of("arp entry")),
                    w.len(),
                    string_of(&chars_of(line)),
                ),
            );
        }
        assert(w.deep_view()[0] == w@[0]@ && w.deep_view()[2] == w@[2]@ && w.deep_view()[3] == w@[3]@
            && w.deep_view()[5] == w@[5]@);
        let ip = match parse_ipv4(&w[0]) {
            Some(v) => v,
            None => {
                return Err(MetricError::ParseIntError(string_of(&chars_of("ip address")), string_of(&w[0])));
            },
        };
        let flags = match parse_hex_u64(&w[2]) {
            Some(v) => if v <= i32::MAX as u64 {
                v as i32
            } else {
                return Err(MetricError::ParseIntError(string_of(&chars_of("flags")), string_of(&w[2])));
            },
            None => {
                return Err(MetricError::ParseIntError(string_of(&chars_of("flags")), string_of(&w[2])));
            },
        };
        let hw_text = string_of(&w[3]);
        let hw = match parse_mac(hw_text.as_str()) {
            Some(v) => v,
            None => {
                return Err(MetricError::ParseIntError(string_of(&chars_of("hw address")), hw_text));
            },
        };
        Ok(ARPEntry { ip_address: ip, hw_address: hw, device: col_text(&w[5]), flags })
    }

    /// The entries of the table given as its lines, the first being the header.
    pub fn parse(lines: &Vec<String>) -> (r: Result<Vec<Self>, MetricError>)
        ensures
            r is Ok <==> (forall|i: int| 1 <= i < lines.len() ==> Self::fits(#[trigger] words(lines@[i]@))),
            r is Ok ==> r->Ok_0.len() == (if lines.len() >= 1 { lines.len() - 1 } else { 0 }),
            r is Ok ==> forall|k: int| 0 <= k < r->Ok_0.len() ==> (#[trigger] r->Ok_0@[k]).read_from(words(lines@[k + 1]@)),
    {
        let mut out: Vec<Self> = Vec::new();
        if lines.len() < 1 {
            return Ok(out);
        }
        let mut i: usize = 1;
        while i < lines.len()
            invariant
                1 <= i <= lines.len(),
                out.len() == i - 1,
                forall|j: int| 1 <= j < i ==> Self::fits(#[trigger] words(lines@[j]@)),
                forall|k: int| 0 <= k < out.len() ==> (#[trigger] out@[k]).read_from(words(lines@[k + 1]@)),
            decreases lines.len() - i,
        {
            let rec = Self::from_line(lines[i].as_str())?;
            out.push(rec);
            i += 1;
        }
        Ok(out)
    }
}

} // verus!
