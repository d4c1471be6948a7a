//! Network protocols of `/proc/net/protocols`: sizes, use and capabilities.
use vstd::prelude::*;
use crate::columns::{col_i64, col_text, col_u64, i64_or_zero, u64_or_zero};
use crate::error::MetricError;
use crate::text::{chars_eq, chars_of, split_words, string_of, words};

verus! {

/// A column equal to the text `lit`.
pub open spec fn is_word(w: Seq<char>, lit: Seq<char>) -> bool {
    w == lit
}

fn word_is(w: &Vec<char>, lit: &str) -> (r: bool)
    ensures
        r == (w@ == lit@),
{
    chars_eq(w, &chars_of(lit))
}

/// Whether the header line lists the `sp` (send page) column, as the 21st.
pub open spec fn has_send_page(header: Seq<Seq<char>>) -> bool {
    header[20] == "sp"@
}

/// The number of columns a protocol line needs.
pub open spec fn needed_columns(sp: bool) -> int {
    if sp {
        27
    } else {
        26
    }
}

/// The operations that a protocol implements, `y` in its column.
#[derive(Debug, Clone)]
pub struct NetProtocolCapabilities {
    pub close: bool,
    pub connect: bool,
    pub disconnect: bool,
    pub accept: bool,
    pub ioctl: bool,
    pub init: bool,
    pub destroy: bool,
    pub shutdown: bool,
    pub set_socketopt: bool,
    pub get_socketopt: bool,
    pub send_msg: bool,
    pub recv_msg: bool,
    pub send_page: Option<bool>,
    pub bind: bool,
    pub backlog_rcv: bool,
    pub hash: bool,
    pub unhash: bool,
    pub get_port: bool,
    pub entry_memory_pressure: bool,
}

impl NetProtocolCapabilities {
    /// Each capability holds whether its column reads `y`; with `sp` the send-page column comes before the last six.
    pub open spec fn read_from(&self, w: Seq<Seq<char>>, sp: bool) -> bool {
        self.close == (w[8] == "y"@)
            && self.connect == (w[9] == "y"@)
            && self.disconnect == (w[10] == "y"@)
            && self.accept == (w[11] == "y"@)
            && self.ioctl == (w[12] == "y"@)
            && self.init == (w[13] == "y"@)
            && self.destroy == (w[14] == "y"@)
            && self.shutdown == (w[15] == "y"@)
            && self.set_socketopt == (w[16] == "y"@)
            && self.get_socketopt == (w[17] == "y"@)
            && self.send_msg == (w[18] == "y"@)
            && self.recv_msg == (w[19] == "y"@)
            && self.send_page == (if sp { Some(w[20] == "y"@) } else { None::<bool> })
            && self.bind == (w[20 + (if sp { 1int } else { 0int })] == "y"@)
            && self.backlog_rcv == (w[21 + (if sp { 1int } else { 0int })] == "y"@)
            && self.hash == (w[22 + (if sp { 1int } else { 0int })] == "y"@)
            && self.unhash == (w[23 + (if sp { 1int } else { 0int })] == "y"@)
            && self.get_port == (w[24 + (if sp { 1int } else { 0int })] == "y"@)
            && self.entry_memory_pressure == (w[25 + (if sp { 1int } else { 0int })] == "y"@)
    }

    pub fn new() -> (r: Self)
        ensures
            r.send_page is None,
    {
        NetProtocolCapabilities {
            close: false,
            connect: false,
            disconnect: false,
            accept: false,
            ioctl: false,
            init: false,
            destroy: false,
            shutdown: false,
            set_socketopt: false,
            get_socketopt: false,
            send_msg: false,
            recv_msg: false,
            send_page: None,
            bind: false,
            backlog_rcv: false,
            hash: false,
            unhash: false,
            get_port: false,
            entry_memory_pressure: false,
        }
    }

    /// The capabilities that the columns `w` of a protocol line give.
    pub fn from_columns(w: &Vec<Vec<char>>, sp: bool) -> (r: Self)
        requires
            w.len() >= needed_columns(sp),
        ensures
            r.read_from(w.deep_view(), sp),
    {
        let off: usize = if sp {
            1
        } else {
            0
        };
        assert(w.deep_view()[8] == w@[8]@);
        assert(w.deep_view()[9] == w@[9]@);
        assert(w.deep_view()[10] == w@[10]@);
        assert(w.deep_view()[11] == w@[11]@);
        assert(w.deep_view()[12] == w@[12]@);
        assert(w.deep_view()[13] == w@[13]@);
        assert(w.deep_view()[14] == w@[14]@);
        assert(w.deep_view()[15] == w@[15]@);
        assert(w.deep_view()[16] == w@[16]@);
        assert(w.deep_view()[17] == w@[17]@);
        assert(w.deep_view()[18] == w@[18]@);
        assert(w.deep_view()[19] == w@[19]@);
        assert(w.deep_view()[20] == w@[20]@);
        assert(w.deep_view()[21] == w@[21]@);
        assert(w.deep_view()[22] == w@[22]@);
        assert(w.deep_view()[23] == w@[23]@);
        assert(w.deep_view()[24] == w@[24]@);
        assert(w.deep_view()[25] == w@[25]@);
        assert(sp ==> w.deep_view()[26] == w@[26]@);
        NetProtocolCapabilities {
            close: word_is(&w[8], "y"),
            connect: word_is(&w[9], "y"),
            disconnect: word_is(&w[10], "y"),
            accept: word_is(&w[11], "y"),
            ioctl: word_is(&w[12], "y"),
            init: word_is(&w[13], "y"),
            destroy: word_is(&w[14], "y"),
            shutdown: word_is(&w[15], "y"),
            set_socketopt: word_is(&w[16], "y"),
            get_socketopt: word_is(&w[17], "y"),
            send_msg: word_is(&w[18], "y"),
            recv_msg: word_is(&w[19], "y"),
            send_page: if sp {
                Some(word_is(&w[20], "y"))
            } else {
                None
            },
            bind: word_is(&w[20 + off], "y"),
            backlog_rcv: word_is(&w[21 + off], "y"),
            hash: word_is(&w[22 + off], "y"),
            unhash: word_is(&w[23 + off], "y"),
            get_port: word_is(&w[24 + off], "y"),
            entry_memory_pressure: word_is(&w[25 + off], "y"),
        }
    }
}

/// One protocol: its object size, sockets, memory, pressure, header size,
/// slab use, module and capabilities.
#[derive(Debug, Clone)]
pub struct NetProtocol {
    pub name: String,
    pub size: u64,
    pub sockets: i64,
    pub memory: i64,
    pub pressure: Option<bool>,
    pub max_header: u64,
    pub slab: bool,
    pub module_name: String,
    pub capabilities: NetProtocolCapabilities,
}

impl NetProtocol {
    /// Each field holds what its column gives: `pressure` is unknown where
    /// the column reads `NI`, else whether it reads `yes`.
    pub open spec fn read_from(&self, w: Seq<Seq<char>>, sp: bool) -> bool {
        self.name@ == w[0]
            && self.size == u64_or_zero(w[1])
            && self.sockets == i64_or_zero(w[2])
            && self.memory == i64_or_zero(w[3])
            && self.pressure == (if w[4] == "NI"@ { None::<bool> } else { Some(w[4] == "yes"@) })
            && self.max_header == u64_or_zero(w[5])
            && self.slab == (w[6] == "yes"@)
            && self.module_name@ == w[7]
            && self.capabilities.read_from(w, sp)
    }

    pub fn new() -> (r: Self)
        ensures
            r.name@.len() == 0,
            r.pressure is None,
            r.module_name@.len() == 0,
    {
        NetProtocol {
            name: String::new(),
            size: 0,
            sockets: 0,
            memory: 0,
            pressure: None,
            max_header: 0,
            slab: false,
            module_name: String::new(),
            capabilities: NetProtocolCapabilities::new(),
        }
    }

    /// The protocol of a line with columns `w`.
    pub fn from_columns(w: &Vec<Vec<char>>, sp: bool) -> (r: Self)
        requires
            w.len() >= needed_columns(sp),
        ensures
            r.read_from(w.deep_view(), sp),
    {
        assert(w.deep_view()[0] == w@[0]@ && w.deep_view()[1] == w@[1]@ && w.deep_view()[2] == w@[2]@
            && w.deep_view()[3] == w@[3]@ && w.deep_view()[4] == w@[4]@ && w.deep_view()[5] == w@[5]@
            && w.deep_view()[6] == w@[6]@ && w.deep_view()[7] == w@[7]@);
        NetProtocol {
            name: col_text(&w[0]),
            size: col_u64(&w[1]),
            sockets: col_i64(&w[2]),
            memory: col_i64(&w[3]),
            pressure: if word_is(&w[4], "NI") {
                None
            } else {
                Some(word_is(&w[4], "yes"))
            },
            max_header: col_u64(&w[5]),
            slab: word_is(&w[6], "yes"),
            module_name: col_text(&w[7]),
            capabilities: NetProtocolCapabilities::from_columns(w, sp),
        }
    }

    /// The protocols of the file given as its lines; the header, which must
    /// have at least 21 columns, tells whether the send-page column is there.
    pub fn parse(lines: &Vec<String>) -> (r: Result<Vec<Self>, MetricError>)
        requires
            lines.len() >= 1,
            words(lines@[0]@).len() > 20,
        ensures
            r is Ok <==> (forall|i: int| 1 <= i < lines.len() ==> (#[trigger] words(lines@[i]@)).len()
                >= needed_columns(has_send_page(words(lines@[0]@)))),
            r is Ok ==> r->Ok_0.len() == lines.len() - 1,
            r is Ok ==> forall|k: int| 0 <= k < r->Ok_0.len() ==> (#[trigger] r->Ok_0@[k]).read_from(
                words(lines@[k + 1]@),
                has_send_page(words(lines@[0]@)),
            ),
    {
        let header = split_words(&chars_of(lines[0].as_str()));
        assert(header.deep_view()[20] == header@[20]@);
        let sp = word_is(&header[20], "sp");
        let need: usize = if sp {
            27
        } else {
            26
        };
        let mut out: Vec<Self> = Vec::new();
        let mut i: usize = 1;
        while i < lines.len()
            invariant
                1 <= i <= lines.len(),
                out.len() == i - 1,
                sp == has_send_page(words(lines@[0]@)),
                need == needed_columns(sp),
                forall|j: int| 1 <= j < i ==> (#[trigger] words(lines@[j]@)).len() >= need,
                forall|k: int| 0 <= k < out.len() ==> (#[trigger] out@[k]).read_from(words(lines@[k + 1]@), sp),
            decreases lines.len() - i,
        {
            let w = split_words(&chars_of(lines[i].as_str()));
            if w.len() < need {
                return Err(
                    MetricError::InvalidFieldNumberError(
                        string_of(&chars_of("net protocols")),
                        w.len(),
                        lines[i].clone(),
                    ),
                );
            }
            out.push(Self::from_columns(&w, sp));
            i += 1;
        }
        Ok(out)
    }
}

} // verus!
