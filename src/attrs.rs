//! Attribute files of a sysfs directory, handed over as (file name, content)
//! pairs: each attribute is its file's content trimmed, absent where the
//! file is missing or blank.
use vstd::prelude::*;
use crate::error::{parse_error, MetricError};
use crate::kv::{pair_text, PairView};
use crate::text::{
    chars_of, hex_u64_of, i64_of, parse_hex_u64, parse_i64, parse_u64, string_of, trim, trimmed,
    u64_of,
};

verus! {

/// The trimmed content of attribute `name`, absent where it is missing or blank.
pub open spec fn attr_text(attrs: Seq<PairView>, name: Seq<char>) -> Option<Seq<char>> {
    match pair_text(attrs, name) {
        Some(c) => if trimmed(c).len() == 0 {
            None
        } else {
            Some(trimmed(c))
        },
        None => None,
    }
}

/// The trimmed content of attribute `name`, empty where it is absent.
pub open spec fn attr_text_or_empty(attrs: Seq<PairView>, name: Seq<char>) -> Seq<char> {
    match attr_text(attrs, name) {
        Some(t) => t,
        None => Seq::empty(),
    }
}

/// Attribute `name` is absent or writes an `i64`.
pub open spec fn attr_i64_ok(attrs: Seq<PairView>, name: Seq<char>) -> bool {
    match attr_text(attrs, name) {
        Some(t) => i64_of(t) is Some,
        None => true,
    }
}

/// The `i64` that attribute `name` writes, absent where the attribute is.
pub open spec fn attr_i64(attrs: Seq<PairView>, name: Seq<char>) -> Option<i64> {
    match attr_text(attrs, name) {
        Some(t) => i64_of(t),
        None => None,
    }
}

/// Attribute `name` is absent or writes a `u64`.
pub open spec fn attr_u64_ok(attrs: Seq<PairView>, name: Seq<char>) -> bool {
    match attr_text(attrs, name) {
        Some(t) => u64_of(t) is Some,
        None => true,
    }
}

/// The `u64` that attribute `name` writes, absent where the attribute is.
pub open spec fn attr_u64(attrs: Seq<PairView>, name: Seq<char>) -> Option<u64> {
    match attr_text(attrs, name) {
        Some(t) => u64_of(t),
        None => None,
    }
}

/// Attribute `name` is absent or writes a hexadecimal `u64`.
pub open spec fn attr_hex_ok(attrs: Seq<PairView>, name: Seq<char>) -> bool {
    match attr_text(attrs, name) {
        Some(t) => hex_u64_of(t) is Some,
        None => true,
    }
}

/// The hexadecimal `u64` that attribute `name` writes, absent where the attribute is.
pub open spec fn attr_hex(attrs: Seq<PairView>, name: Seq<char>) -> Option<u64> {
    match attr_text(attrs, name) {
        Some(t) => hex_u64_of(t),
        None => None,
    }
}

/// The hexadecimal `u64` of attribute `name`; an error where it writes none.
pub fn read_hex(attrs: &Vec<(String, String)>, name: &str) -> (r: Result<Option<u64>, MetricError>)
    ensures
        r is Ok <==> attr_hex_ok(attrs.deep_view(), name@),
        r is Ok ==> r->Ok_0 == attr_hex(attrs.deep_view(), name@),
        r is Err ==> parse_error(r->Err_0, name@, attr_text(attrs.deep_view(), name@)->Some_0),
{
    match read_text(attrs, name) {
        Some(t) => {
            let c = chars_of(t.as_str());
            match parse_hex_u64(&c) {
                Some(v) => Ok(Some(v)),
                None => Err(MetricError::ParseIntError(string_of(&chars_of(name)), t)),
            }
        },
        None => Ok(None),
    }
}

/// The trimmed content of attribute `name`.
pub fn read_text(attrs: &Vec<(String, String)>, name: &str) -> (r: Option<String>)
    ensures
        r.deep_view() == attr_text(attrs.deep_view(), name@),
{
    match find_pair_str(attrs, name) {
        Some(c) => {
            let t = trim(&chars_of(c.as_str()));
            if t.len() == 0 {
                None
            } else {
                Some(string_of(&t))
            }
        },
        None => None,
    }
}

/// The trimmed content of attribute `name`, empty where it is absent.
pub fn read_text_or_empty(attrs: &Vec<(String, String)>, name: &str) -> (r: String)
    ensures
        r@ == attr_text_or_empty(attrs.deep_view(), name@),
{
    match read_text(attrs, name) {
        Some(t) => t,
        None => String::new(),
    }
}

/// The `i64` of attribute `name`; an error where it writes none.
pub fn read_i64(attrs: &Vec<(String, String)>, name: &str) -> (r: Result<Option<i64>, MetricError>)
    ensures
        r is Ok <==> attr_i64_ok(attrs.deep_view(), name@),
        r is Ok ==> r->Ok_0 == attr_i64(attrs.deep_view(), name@),
        r is Err ==> parse_error(r->Err_0, name@, attr_text(attrs.deep_view(), name@)->Some_0),
{
    match read_text(attrs, name) {
        Some(t) => {
            let c = chars_of(t.as_str());
            match parse_i64(&c) {
                Some(v) => Ok(Some(v)),
                None => Err(MetricError::ParseIntError(string_of(&chars_of(name)), t)),
            }
        },
        None => Ok(None),
    }
}

/// The `u64` of attribute `name`; an error where it writes none.
pub fn read_u64(attrs: &Vec<(String, String)>, name: &str) -> (r: Result<Option<u64>, MetricError>)
    ensures
        r is Ok <==> attr_u64_ok(attrs.deep_view(), name@),
        r is Ok ==> r->Ok_0 == attr_u64(attrs.deep_view(), name@),
        r is Err ==> parse_error(r->Err_0, name@, attr_text(attrs.deep_view(), name@)->Some_0),
{
    match read_text(attrs, name) {
        Some(t) => {
            let c = chars_of(t.as_str());
            match parse_u64(&c) {
                Some(v) => Ok(Some(v)),
                None => Err(MetricError::ParseIntError(string_of(&chars_of(name)), t)),
            }
        },
        None => Ok(None),
    }
}

/// The content of the last attribute file named `name`.
fn find_pair_str(attrs: &Vec<(String, String)>, name: &str) -> (r: Option<String>)
    ensures
        match pair_text(attrs.deep_view(), name@) {
            Some(t) => r is Some && r->Some_0@ == t,
            None => r is None,
        },
{
    let ghost all = attrs.deep_view();
    let mut i: usize = attrs.len();
    assert(all.take(all.len() as int) =~= all);
    while i > 0
        invariant
            i <= attrs.len() == all.len(),
            all == attrs.deep_view(),
            pair_text(all, name@) == pair_text(all.take(i as int), name@),
        decreases i,
    {
        let ghost prefix = all.take(i as int);
        assert(prefix.drop_last() =~= all.take(i - 1));
        assert(prefix.last() == all[i - 1]);
        assert(all[i - 1].0 == attrs@[i - 1].0@ && all[i - 1].1 == attrs@[i - 1].1@);
        if attrs[i - 1].0 == string_of(&chars_of(name)) {
            return Some(attrs[i - 1].1.clone());
        }
        i -= 1;
    }
    None
}

} // verus!
