//! The kernel's boot command line, `/proc/cmdline`.
use vstd::prelude::*;
use crate::text::{chars_of, split_whitespace, strings_of, ws_words};

verus! {

/// The boot parameters that the content of `/proc/cmdline` lists, separated
/// by blanks.
pub fn parse(content: &str) -> (r: Vec<String>)
    ensures
        r.deep_view() == ws_words(content@),
{
    strings_of(&split_whitespace(&chars_of(content)))
}

} // verus!
