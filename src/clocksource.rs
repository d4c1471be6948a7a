//! Clock sources of `/sys/devices/system/clocksource`.
use vstd::prelude::*;
use crate::text::{chars_of, fields, split_all, string_of, strings_of, trim, trimmed};

verus! {

/// The files of a clock source device.
pub enum ClocksourceInfo {
    AvailableClockSource,
    CurrentClockSource,
}

impl ClocksourceInfo {
    /// The name of the file.
    pub fn into_string(self) -> (r: String)
        ensures
            r@ == (match self {
                ClocksourceInfo::AvailableClockSource => "available_clocksource"@,
                ClocksourceInfo::CurrentClockSource => "current_clocksource"@,
            }),
    {
        let name = match self {
            ClocksourceInfo::AvailableClockSource => "available_clocksource",
            ClocksourceInfo::CurrentClockSource => "current_clocksource",
        };
        name.to_owned()
    }
}

/// A clock source device: the sources it offers and the one in use.
#[derive(Debug, Clone)]
pub struct Clocksource {
    pub name: String,
    pub available_clocksource: Vec<String>,
    pub current_clocksource: String,
}

/// The sources that `available_clocksource` lists: its content trimmed and
/// split at each space.
pub open spec fn available_sources(content: Seq<char>) -> Seq<Seq<char>> {
    fields(trimmed(content), ' ')
}

impl Clocksource {
    pub fn new(name: String, available_clocksource: Vec<String>, current_clocksource: String) -> (r: Self)
        ensures
            r.name@ == name@,
            r.available_clocksource@ == available_clocksource@,
            r.current_clocksource@ == current_clocksource@,
    {
        Clocksource { name, available_clocksource, current_clocksource }
    }

    /// Clock source `name`, from the contents of its `available_clocksource`
    /// and `current_clocksource` files.
    pub fn from_contents(name: String, available: &str, current: &str) -> (r: Self)
        ensures
            r.name@ == name@,
            r.available_clocksource.deep_view() == available_sources(available@),
            r.current_clocksource@ == trimmed(current@),
    {
        let a = trim(&chars_of(available));
        assert(a@.subrange(0, a.len() as int) =~= a@);
        let list = strings_of(&split_all(&a, 0, a.len(), ' '));
        let cur = string_of(&trim(&chars_of(current)));
        Clocksource { name, available_clocksource: list, current_clocksource: cur }
    }
}

/// Whether a directory entry names a clock source device: it begins with
/// `clocksource` and is more than that word.
pub open spec fn is_clocksource_dir(name: Seq<char>) -> bool {
    trimmed(name).len() > 11 && trimmed(name).take(11) == "clocksource"@
}

/// Whether a directory entry names a clock source device.
pub fn clocksource_dir(name: &str) -> (r: bool)
    ensures
        r == is_clocksource_dir(name@),
{
    let t = trim(&chars_of(name));
    let prefix = chars_of("clocksource");
    proof {
        reveal_strlit("clocksource");
    }
    t.len() > 11 && crate::text::starts_with(&t, &prefix)
}

} // verus!
