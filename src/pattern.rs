//! Regular-expression matching through the `regex` crate, and the choice of
//! names by the patterns they match.
use vstd::prelude::*;
use crate::error::MetricError;

verus! {

#[verifier::external_type_specification]
#[verifier::external_body]
pub struct ExRegexError(regex::Error);

/// Whether `regex::Regex::new` accepts `pattern`: it parses and its compiled
/// form stays within the default size limits. This depends on the pattern alone.
pub uninterp spec fn regex_compiles(pattern: Seq<char>) -> bool;

/// Whether `text` holds a match of the regular expression `pattern`, as
/// `regex::Regex::is_match` decides.
pub uninterp spec fn regex_matches(pattern: Seq<char>, text: Seq<char>) -> bool;

/// One match's first three capture groups, each absent where it took no part.
pub type Groups = (Option<Seq<char>>, Option<Seq<char>>, Option<Seq<char>>);

/// The first three capture groups of each successive non-overlapping match
/// of `pattern` in `text`, as `regex::Regex::captures_iter` finds them.
pub uninterp spec fn regex_groups(pattern: Seq<char>, text: Seq<char>) -> Seq<Groups>;

/// Relies on regex::Regex::new, to compile `pattern`, and Regex::is_match, to
/// decide whether `text` holds a match of it.
#[verifier::external_body]
fn is_match(pattern: &str, text: &str) -> (r: Result<bool, regex::Error>)
    ensures
        r is Ok <==> regex_compiles(pattern@),
        r is Ok ==> r->Ok_0 == regex_matches(pattern@, text@),
{
    let re = regex::Regex::new(pattern)?;
    Ok(re.is_match(text))
}

/// Relies on regex::Regex::new, to compile `pattern`, and Regex::captures_iter,
/// for groups 1 to 3 of each match of it in `text`, in order.
#[verifier::external_body]
fn captures(pattern: &str, text: &str) -> (r: Result<
    Vec<(Option<String>, Option<String>, Option<String>)>,
    regex::Error,
>)
    ensures
        r is Ok <==> regex_compiles(pattern@),
        r is Ok ==> r->Ok_0.deep_view() == regex_groups(pattern@, text@),
{
    let re = regex::Regex::new(pattern)?;
    Ok(
        re.captures_iter(text).map(
            |c| (c.get(1).map(|m| m.as_str().to_string()), c.get(2).map(|m| m.as_str().to_string()),
            c.get(3).map(|m| m.as_str().to_string())),
        ).collect(),
    )
}

/// Relies on regex::Error's Display: the message of a pattern error.
#[verifier::external_body]
fn error_text(e: &regex::Error) -> String {
    e.to_string()
}

/// Whether `text` holds a match of `pattern`.
pub fn text_matches(pattern: &str, text: &str) -> (r: Result<bool, MetricError>)
    ensures
        r is Ok <==> regex_compiles(pattern@),
        r is Ok ==> r->Ok_0 == regex_matches(pattern@, text@),
        r is Err ==> r->Err_0 is RegexError,
{
    match is_match(pattern, text) {
        Ok(b) => Ok(b),
        Err(e) => Err(MetricError::RegexError(error_text(&e))),
    }
}

/// The first three groups of each match of `pattern` in `text`.
pub fn groups(pattern: &str, text: &str) -> (r: Result<
    Vec<(Option<String>, Option<String>, Option<String>)>,
    MetricError,
>)
    ensures
        r is Ok <==> regex_compiles(pattern@),
        r is Ok ==> r->Ok_0.deep_view() == regex_groups(pattern@, text@),
        r is Err ==> r->Err_0 is RegexError,
{
    match captures(pattern, text) {
        Ok(g) => Ok(g),
        Err(e) => Err(MetricError::RegexError(error_text(&e))),
    }
}

/// The names whose flag is set, in order.
pub open spec fn selected(names: Seq<Seq<char>>, take: Seq<bool>) -> Seq<Seq<char>>
    decreases names.len(),
{
    if names.len() == 0 || take.len() < names.len() {
        Seq::empty()
    } else if take[names.len() - 1] {
        selected(names.drop_last(), take.take(names.len() - 1)).push(names.last())
    } else {
        selected(names.drop_last(), take.take(names.len() - 1))
    }
}

/// The names whose flag is set, in order.
pub fn select(names: &Vec<String>, take: &Vec<bool>) -> (r: Vec<String>)
    requires
        take.len() == names.len(),
    ensures
        r.deep_view() == selected(names.deep_view(), take@),
{
    let ghost all = names.deep_view();
    let mut out: Vec<String> = Vec::new();
    let mut i: usize = 0;
    while i < names.len()
        invariant
            i <= names.len() == take.len() == all.len(),
            all == names.deep_view(),
            out.deep_view() == selected(all.take(i as int), take@.take(i as int)),
        decreases names.len() - i,
    {
        let ghost before = out.deep_view();
        assert(all.take(i + 1).drop_last() =~= all.take(i as int));
        assert(take@.take(i + 1).take(i as int) =~= take@.take(i as int));
        assert(all.take(i + 1).last() == names@[i as int]@);
        if take[i] {
            out.push(names[i].clone());
            assert(out.deep_view() =~= before.push(names@[i as int]@));
        }
        i += 1;
    }
    assert(all.take(names.len() as int) =~= all);
    assert(take@.take(names.len() as int) =~= take@);
    out
}

/// For each name, whether it holds a match of `pattern`.
pub open spec fn match_flags(pattern: Seq<char>, names: Seq<Seq<char>>) -> Seq<bool> {
    Seq::new(names.len(), |i: int| regex_matches(pattern, names[i]))
}

/// Set where `b` is and `a` is not: the names that a later pattern claims
/// once an earlier one has taken its own.
pub open spec fn and_not(a: Seq<bool>, b: Seq<bool>) -> Seq<bool> {
    Seq::new(b.len(), |i: int| !a[i] && b[i])
}

/// Set where either is.
pub open spec fn either(a: Seq<bool>, b: Seq<bool>) -> Seq<bool> {
    Seq::new(b.len(), |i: int| a[i] || b[i])
}

/// For each name, whether it holds a match of `pattern`.
pub fn flags(pattern: &str, names: &Vec<String>) -> (r: Result<Vec<bool>, MetricError>)
    ensures
        r is Ok <==> (names.len() == 0 || regex_compiles(pattern@)),
        r is Ok ==> r->Ok_0@ == match_flags(pattern@, names.deep_view()),
        r is Err ==> r->Err_0 is RegexError,
{
    let ghost all = names.deep_view();
    let mut out: Vec<bool> = Vec::new();
    let mut i: usize = 0;
    while i < names.len()
        invariant
            i <= names.len() == all.len(),
            all == names.deep_view(),
            out@ == match_flags(pattern@, all).take(i as int),
            i > 0 ==> regex_compiles(pattern@),
        decreases names.len() - i,
    {
        let m = text_matches(pattern, names[i].as_str())?;
        assert(all[i as int] == names@[i as int]@);
        out.push(m);
        assert(out@ =~= match_flags(pattern@, all).take(i + 1));
        i += 1;
    }
    assert(out@ =~= match_flags(pattern@, all));
    Ok(out)
}

/// Set where `b` is and `a` is not.
pub fn flags_and_not(a: &Vec<bool>, b: &Vec<bool>) -> (r: Vec<bool>)
    requires
        a.len() == b.len(),
    ensures
        r@ == and_not(a@, b@),
{
    let mut out: Vec<bool> = Vec::new();
    let mut i: usize = 0;
    while i < b.len()
        invariant
            i <= b.len() == a.len(),
            out@ == and_not(a@, b@).take(i as int),
        decreases b.len() - i,
    {
        out.push(!a[i] && b[i]);
        assert(out@ =~= and_not(a@, b@).take(i + 1));
        i += 1;
    }
    assert(out@ =~= and_not(a@, b@));
    out
}

/// Set where either is.
pub fn flags_either(a: &Vec<bool>, b: &Vec<bool>) -> (r: Vec<bool>)
    requires
        a.len() == b.len(),
    ensures
        r@ == either(a@, b@),
{
    let mut out: Vec<bool> = Vec::new();
    let mut i: usize = 0;
    while i < b.len()
        invariant
            i <= b.len() == a.len(),
            out@ == either(a@, b@).take(i as int),
        decreases b.len() - i,
    {
        out.push(a[i] || b[i]);
        assert(out@ =~= either(a@, b@).take(i + 1));
        i += 1;
    }
    assert(out@ =~= either(a@, b@));
    out
}

} // verus!
