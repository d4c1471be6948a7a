//! Character-level text handling shared by every parser of the crate:
//! trimming, splitting into non-empty pieces, case-folded comparison and
//! decimal integers.
use vstd::prelude::*;

verus! {

/// ASCII whitespace, the only blanks the kernel's text files use.
pub open spec fn is_space(c: char) -> bool {
    c == ' ' || c == '\t' || c == '\n' || c == '\r' || c == '\x0b' || c == '\x0c'
}

/// Number of blanks at the start of `s`.
pub open spec fn leading_spaces(s: Seq<char>) -> nat
    decreases s.len(),
{
    if s.len() > 0 && is_space(s[0]) {
        1 + leading_spaces(s.drop_first())
    } else {
        0
    }
}

/// Number of blanks at the end of `s`.
pub open spec fn trailing_spaces(s: Seq<char>) -> nat
    decreases s.len(),
{
    if s.len() > 0 && is_space(s.last()) {
        1 + trailing_spaces(s.drop_last())
    } else {
        0
    }
}

/// `s` without its leading and trailing blanks.
pub open spec fn trimmed(s: Seq<char>) -> Seq<char> {
    if leading_spaces(s) == s.len() {
        Seq::empty()
    } else {
        s.subrange(leading_spaces(s) as int, s.len() - trailing_spaces(s))
    }
}

/// One step of splitting: the pieces finished so far and the piece being read.
pub open spec fn split_step(acc: (Seq<Seq<char>>, Seq<char>), c: char, sep: char) -> (
    Seq<Seq<char>>,
    Seq<char>,
) {
    if c == sep {
        (if acc.1.len() > 0 {
            acc.0.push(acc.1)
        } else {
            acc.0
        }, Seq::empty())
    } else {
        (acc.0, acc.1.push(c))
    }
}

/// The state of splitting after reading all of `s`.
pub open spec fn split_state(s: Seq<char>, sep: char) -> (Seq<Seq<char>>, Seq<char>)
    decreases s.len(),
{
    if s.len() == 0 {
        (Seq::empty(), Seq::empty())
    } else {
        split_step(split_state(s.drop_last(), sep), s.last(), sep)
    }
}

/// The non-empty runs of `s` between occurrences of `sep`, in order.
pub open spec fn pieces(s: Seq<char>, sep: char) -> Seq<Seq<char>> {
    let st = split_state(s, sep);
    if st.1.len() > 0 {
        st.0.push(st.1)
    } else {
        st.0
    }
}

/// The blank-separated words of `s`: the line trimmed, then split on spaces.
pub open spec fn words(s: Seq<char>) -> Seq<Seq<char>> {
    pieces(trimmed(s), ' ')
}

/// Like `split_step`, but an empty run between two separators is kept.
pub open spec fn split_all_step(acc: (Seq<Seq<char>>, Seq<char>), c: char, sep: char) -> (
    Seq<Seq<char>>,
    Seq<char>,
) {
    if c == sep {
        (acc.0.push(acc.1), Seq::empty())
    } else {
        (acc.0, acc.1.push(c))
    }
}

pub open spec fn split_all_state(s: Seq<char>, sep: char) -> (Seq<Seq<char>>, Seq<char>)
    decreases s.len(),
{
    if s.len() == 0 {
        (Seq::empty(), Seq::empty())
    } else {
        split_all_step(split_all_state(s.drop_last(), sep), s.last(), sep)
    }
}

/// All runs of `s` between occurrences of `sep`, empty ones included: one
/// more than the separators.
pub open spec fn fields(s: Seq<char>, sep: char) -> Seq<Seq<char>> {
    let st = split_all_state(s, sep);
    st.0.push(st.1)
}

/// Number of `c` at the start of `s`.
pub open spec fn leading_run(s: Seq<char>, c: char) -> nat
    decreases s.len(),
{
    if s.len() > 0 && s[0] == c {
        1 + leading_run(s.drop_first(), c)
    } else {
        0
    }
}

/// Number of `c` at the end of `s`.
pub open spec fn trailing_run(s: Seq<char>, c: char) -> nat
    decreases s.len(),
{
    if s.len() > 0 && s.last() == c {
        1 + trailing_run(s.drop_last(), c)
    } else {
        0
    }
}

/// `s` without the `c` at its start and at its end.
pub open spec fn stripped(s: Seq<char>, c: char) -> Seq<char> {
    if leading_run(s, c) == s.len() {
        Seq::empty()
    } else {
        s.subrange(leading_run(s, c) as int, s.len() - trailing_run(s, c))
    }
}

/// `s` without the `c` at its end.
pub open spec fn stripped_end(s: Seq<char>, c: char) -> Seq<char> {
    s.subrange(0, s.len() - trailing_run(s, c))
}

/// Like `split_step`, with every blank as a separator.
pub open spec fn ws_step(acc: (Seq<Seq<char>>, Seq<char>), c: char) -> (Seq<Seq<char>>, Seq<char>) {
    if is_space(c) {
        (if acc.1.len() > 0 {
            acc.0.push(acc.1)
        } else {
            acc.0
        }, Seq::empty())
    } else {
        (acc.0, acc.1.push(c))
    }
}

pub open spec fn ws_state(s: Seq<char>) -> (Seq<Seq<char>>, Seq<char>)
    decreases s.len(),
{
    if s.len() == 0 {
        (Seq::empty(), Seq::empty())
    } else {
        ws_step(ws_state(s.drop_last()), s.last())
    }
}

/// The non-empty runs of `s` between blanks of any kind.
pub open spec fn ws_words(s: Seq<char>) -> Seq<Seq<char>> {
    let st = ws_state(s);
    if st.1.len() > 0 {
        st.0.push(st.1)
    } else {
        st.0
    }
}

/// `c` read case-insensitively against the lower-case character `k`.
pub open spec fn folds_to(c: char, k: char) -> bool {
    if 'A' <= c && c <= 'Z' {
        c as u32 + 32 == k as u32
    } else {
        c == k
    }
}

/// `s` equals the lower-case text `key` once its ASCII capitals are lowered.
pub open spec fn folded_eq(s: Seq<char>, key: Seq<char>) -> bool {
    s.len() == key.len() && forall|i: int| 0 <= i < s.len() ==> folds_to(#[trigger] s[i], key[i])
}

/// `s` with every occurrence of `c` taken out.
pub open spec fn removed(s: Seq<char>, c: char) -> Seq<char>
    decreases s.len(),
{
    if s.len() == 0 {
        s
    } else if s.last() == c {
        removed(s.drop_last(), c)
    } else {
        removed(s.drop_last(), c).push(s.last())
    }
}

pub open spec fn is_digit(c: char) -> bool {
    '0' <= c && c <= '9'
}

pub open spec fn all_digits(s: Seq<char>) -> bool {
    forall|i: int| 0 <= i < s.len() ==> is_digit(#[trigger] s[i])
}

/// The number written by the decimal digits `s`.
pub open spec fn digits_value(s: Seq<char>) -> nat
    decreases s.len(),
{
    if s.len() == 0 {
        0
    } else {
        digits_value(s.drop_last()) * 10 + (s.last() as u32 - '0' as u32) as nat
    }
}

/// A run of one or more digits, and the number it writes.
pub open spec fn digit_run(s: Seq<char>) -> Option<nat> {
    if s.len() > 0 && all_digits(s) {
        Some(digits_value(s))
    } else {
        None
    }
}

/// What `s` writes as an unsigned decimal: an optional `+`, then digits.
pub open spec fn unsigned_text(s: Seq<char>) -> Option<nat> {
    if s.len() > 0 && s[0] == '+' {
        digit_run(s.drop_first())
    } else {
        digit_run(s)
    }
}

/// The `u64` that `s` writes, if it writes one that fits.
pub open spec fn u64_of(s: Seq<char>) -> Option<u64> {
    match unsigned_text(s) {
        Some(v) => if v <= u64::MAX {
            Some(v as u64)
        } else {
            None
        },
        None => None,
    }
}

/// The `i64` that `s` writes (an optional sign, then digits), if it fits.
pub open spec fn i64_of(s: Seq<char>) -> Option<i64> {
    if s.len() > 0 && s[0] == '-' {
        match digit_run(s.drop_first()) {
            Some(v) => if v <= 0x8000_0000_0000_0000 {
                Some((-v) as i64)
            } else {
                None
            },
            None => None,
        }
    } else {
        match unsigned_text(s) {
            Some(v) => if v <= i64::MAX {
                Some(v as i64)
            } else {
                None
            },
            None => None,
        }
    }
}

/// The `usize` that `s` writes, if it writes one that fits.
pub open spec fn usize_of(s: Seq<char>) -> Option<usize> {
    match unsigned_text(s) {
        Some(v) => if v <= usize::MAX {
            Some(v as usize)
        } else {
            None
        },
        None => None,
    }
}

/// The `u32` that `s` writes, if it writes one that fits.
pub open spec fn u32_of(s: Seq<char>) -> Option<u32> {
    match unsigned_text(s) {
        Some(v) => if v <= u32::MAX {
            Some(v as u32)
        } else {
            None
        },
        None => None,
    }
}

/// The character of decimal digit `d`.
pub open spec fn digit_char(d: nat) -> char {
    if d == 0 {
        '0'
    } else if d == 1 {
        '1'
    } else if d == 2 {
        '2'
    } else if d == 3 {
        '3'
    } else if d == 4 {
        '4'
    } else if d == 5 {
        '5'
    } else if d == 6 {
        '6'
    } else if d == 7 {
        '7'
    } else if d == 8 {
        '8'
    } else {
        '9'
    }
}

/// The decimal digits of `n`, without leading zeros.
pub open spec fn decimal_text(n: nat) -> Seq<char>
    decreases n,
{
    if n < 10 {
        seq![digit_char(n)]
    } else {
        decimal_text(n / 10).push(digit_char(n % 10))
    }
}

/// The value of a hexadecimal digit, in either case.
pub open spec fn hex_digit(c: char) -> Option<nat> {
    if '0' <= c && c <= '9' {
        Some((c as u32 - '0' as u32) as nat)
    } else if 'a' <= c && c <= 'f' {
        Some((c as u32 - 'a' as u32 + 10) as nat)
    } else if 'A' <= c && c <= 'F' {
        Some((c as u32 - 'A' as u32 + 10) as nat)
    } else {
        None
    }
}

pub open spec fn all_hex(s: Seq<char>) -> bool {
    forall|i: int| 0 <= i < s.len() ==> (#[trigger] hex_digit(s[i])) is Some
}

/// The number written by the hexadecimal digits `s`.
pub open spec fn hex_value(s: Seq<char>) -> nat
    decreases s.len(),
{
    if s.len() == 0 {
        0
    } else {
        hex_value(s.drop_last()) * 16 + match hex_digit(s.last()) {
            Some(d) => d,
            None => 0,
        }
    }
}

/// The `u64` that `s` writes in hexadecimal: an optional `0x`, an optional
/// `+`, then one or more hexadecimal digits, the number fitting.
pub open spec fn hex_u64_of(s: Seq<char>) -> Option<u64> {
    let a = if s.len() >= 2 && s[0] == '0' && s[1] == 'x' {
        s.skip(2)
    } else {
        s
    };
    let d = if a.len() > 0 && a[0] == '+' {
        a.drop_first()
    } else {
        a
    };
    if d.len() > 0 && all_hex(d) && hex_value(d) <= u64::MAX {
        Some(hex_value(d) as u64)
    } else {
        None
    }
}

/// Trimming a trimmed text leaves it as it is.
pub proof fn lemma_trimmed_idempotent(s: Seq<char>)
    ensures
        trimmed(trimmed(s)) == trimmed(s),
{
    let t = trimmed(s);
    if t.len() > 0 {
        let a = leading_spaces(s) as int;
        let b = s.len() - trailing_spaces(s);
        lemma_leading_stops(s);
        lemma_trailing_stops(s);
        assert(!is_space(t[0]));
        assert(!is_space(t.last()));
        assert(leading_spaces(t) == 0);
        assert(trailing_spaces(t) == 0);
        assert(t.subrange(0, t.len() as int) =~= t);
    }
}

proof fn lemma_leading_stops(s: Seq<char>)
    ensures
        leading_spaces(s) <= s.len(),
        leading_spaces(s) < s.len() ==> !is_space(s[leading_spaces(s) as int]),
        forall|i: int| 0 <= i < leading_spaces(s) ==> is_space(#[trigger] s[i]),
    decreases s.len(),
{
    if s.len() > 0 && is_space(s[0]) {
        lemma_leading_stops(s.drop_first());
        assert forall|i: int| 0 <= i < leading_spaces(s) implies is_space(#[trigger] s[i]) by {
            if i > 0 {
                assert(s[i] == s.drop_first()[i - 1]);
            }
        }
    }
}

proof fn lemma_trailing_stops(s: Seq<char>)
    ensures
        trailing_spaces(s) <= s.len(),
        trailing_spaces(s) < s.len() ==> !is_space(s[s.len() - 1 - trailing_spaces(s)]),
        forall|i: int| s.len() - trailing_spaces(s) <= i < s.len() ==> is_space(#[trigger] s[i]),
    decreases s.len(),
{
    if s.len() > 0 && is_space(s.last()) {
        lemma_trailing_stops(s.drop_last());
        assert forall|i: int| s.len() - trailing_spaces(s) <= i < s.len() implies is_space(
            #[trigger] s[i],
        ) by {
            if i < s.len() - 1 {
                assert(s[i] == s.drop_last()[i]);
            }
        }
    }
}

/// The `u64` that `s` writes in base 16 with no prefix: an optional `+`,
/// then one or more hexadecimal digits, the number fitting.
pub open spec fn radix16_of(s: Seq<char>) -> Option<u64> {
    let d = if s.len() > 0 && s[0] == '+' {
        s.drop_first()
    } else {
        s
    };
    if d.len() > 0 && all_hex(d) && hex_value(d) <= u64::MAX {
        Some(hex_value(d) as u64)
    } else {
        None
    }
}

/// The `i32` that `s` writes (an optional sign, then digits), if it fits.
pub open spec fn i32_of(s: Seq<char>) -> Option<i32> {
    match i64_of(s) {
        Some(v) => if i32::MIN <= v <= i32::MAX {
            Some(v as i32)
        } else {
            None
        },
        None => None,
    }
}

/// Relies on str::chars: the characters of `s`, in order.
#[verifier::external_body]
pub(crate) fn chars_of(s: &str) -> (r: Vec<char>)
    ensures
        r@ == s@,
{
    s.chars().collect()
}

/// Relies on String's FromIterator<char>: the string made of the characters `v`.
#[verifier::external_body]
pub(crate) fn string_of(v: &Vec<char>) -> (r: String)
    ensures
        r@ == v@,
{
    v.iter().collect()
}

pub fn is_space_char(c: char) -> (r: bool)
    ensures
        r == is_space(c),
{
    c == ' ' || c == '\t' || c == '\n' || c == '\r' || c == '\x0b' || c == '\x0c'
}

/// The bounds of `s` without its leading and trailing blanks.
pub fn trim_bounds(s: &Vec<char>) -> (r: (usize, usize))
    ensures
        r.0 <= r.1 <= s.len(),
        s@.subrange(r.0 as int, r.1 as int) == trimmed(s@),
{
    let n = s.len();
    let mut i: usize = 0;
    assert(s@.skip(0) =~= s@);
    while i < n && is_space_char(s[i])
        invariant
            i <= n == s.len(),
            leading_spaces(s@) == i + leading_spaces(s@.skip(i as int)),
        decreases n - i,
    {
        assert(s@.skip(i as int).drop_first() =~= s@.skip(i + 1));
        i += 1;
    }
    if i == n {
        assert(s@.subrange(n as int, n as int) =~= Seq::<char>::empty());
        return (n, n);
    }
    assert(s@.skip(i as int)[0] == s@[i as int]);
    assert(leading_spaces(s@) == i);
    let mut j: usize = n;
    assert(s@.take(n as int) =~= s@);
    while j > i && is_space_char(s[j - 1])
        invariant
            i < n == s.len(),
            i < j <= n,
            !is_space(s@[i as int]),
            trailing_spaces(s@) == (n - j) + trailing_spaces(s@.take(j as int)),
        decreases j,
    {
        assert(s@.take(j as int).drop_last() =~= s@.take(j - 1));
        j -= 1;
    }
    assert(s@.take(j as int).last() == s@[j - 1]);
    assert(trailing_spaces(s@) == n - j);
    (i, j)
}

/// The non-empty runs of `s[lo..hi]` between occurrences of `sep`.
pub fn split_range(s: &Vec<char>, lo: usize, hi: usize, sep: char) -> (r: Vec<Vec<char>>)
    requires
        lo <= hi <= s.len(),
    ensures
        r.deep_view() == pieces(s@.subrange(lo as int, hi as int), sep),
{
    let mut out: Vec<Vec<char>> = Vec::new();
    let mut cur: Vec<char> = Vec::new();
    let mut i: usize = lo;
    assert(s@.subrange(lo as int, lo as int) =~= Seq::<char>::empty());
    while i < hi
        invariant
            lo <= i <= hi <= s.len(),
            (out.deep_view(), cur@) == split_state(s@.subrange(lo as int, i as int), sep),
        decreases hi - i,
    {
        let c = s[i];
        let ghost before = out.deep_view();
        assert(s@.subrange(lo as int, i + 1).drop_last() =~= s@.subrange(lo as int, i as int));
        if c == sep {
            if cur.len() > 0 {
                let done = cur;
                assert(done.deep_view() =~= done@);
                out.push(done);
                assert(out.deep_view() =~= before.push(done@));
            }
            cur = Vec::new();
        } else {
            cur.push(c);
        }
        i += 1;
    }
    if cur.len() > 0 {
        let ghost before = out.deep_view();
        let last = cur;
        assert(last.deep_view() =~= last@);
        out.push(last);
        assert(out.deep_view() =~= before.push(last@));
    }
    out
}

/// The non-empty runs of `s` between blanks of any kind.
pub fn split_whitespace(s: &Vec<char>) -> (r: Vec<Vec<char>>)
    ensures
        r.deep_view() == ws_words(s@),
{
    let mut out: Vec<Vec<char>> = Vec::new();
    let mut cur: Vec<char> = Vec::new();
    let mut i: usize = 0;
    assert(s@.take(0) =~= Seq::<char>::empty());
    while i < s.len()
        invariant
            i <= s.len(),
            (out.deep_view(), cur@) == ws_state(s@.take(i as int)),
        decreases s.len() - i,
    {
        let c = s[i];
        let ghost before = out.deep_view();
        assert(s@.take(i + 1).drop_last() =~= s@.take(i as int));
        if is_space_char(c) {
            if cur.len() > 0 {
                let done = cur;
                assert(done.deep_view() =~= done@);
                out.push(done);
                assert(out.deep_view() =~= before.push(done@));
            }
            cur = Vec::new();
        } else {
            cur.push(c);
        }
        i += 1;
    }
    assert(s@.take(s.len() as int) =~= s@);
    if cur.len() > 0 {
        let ghost before = out.deep_view();
        let last = cur;
        assert(last.deep_view() =~= last@);
        out.push(last);
        assert(out.deep_view() =~= before.push(last@));
    }
    out
}

/// The blank-separated words of `s`.
pub fn split_words(s: &Vec<char>) -> (r: Vec<Vec<char>>)
    ensures
        r.deep_view() == words(s@),
{
    let (a, b) = trim_bounds(s);
    split_range(s, a, b, ' ')
}

/// The non-empty runs of the trimmed `s` between occurrences of `sep`.
pub fn split_trimmed(s: &Vec<char>, sep: char) -> (r: Vec<Vec<char>>)
    ensures
        r.deep_view() == pieces(trimmed(s@), sep),
{
    let (a, b) = trim_bounds(s);
    split_range(s, a, b, sep)
}

/// `s` with its leading and trailing blanks removed.
pub fn trim(s: &Vec<char>) -> (r: Vec<char>)
    ensures
        r@ == trimmed(s@),
{
    let (a, b) = trim_bounds(s);
    let mut r: Vec<char> = Vec::new();
    let mut i: usize = a;
    while i < b
        invariant
            a <= i <= b <= s.len(),
            r@ == s@.subrange(a as int, i as int),
        decreases b - i,
    {
        r.push(s[i]);
        assert(r@ =~= s@.subrange(a as int, i + 1));
        i += 1;
    }
    r
}

/// All runs of `s[lo..hi]` between occurrences of `sep`, empty ones included.
pub fn split_all(s: &Vec<char>, lo: usize, hi: usize, sep: char) -> (r: Vec<Vec<char>>)
    requires
        lo <= hi <= s.len(),
    ensures
        r.deep_view() == fields(s@.subrange(lo as int, hi as int), sep),
{
    let mut out: Vec<Vec<char>> = Vec::new();
    let mut cur: Vec<char> = Vec::new();
    let mut i: usize = lo;
    assert(s@.subrange(lo as int, lo as int) =~= Seq::<char>::empty());
    while i < hi
        invariant
            lo <= i <= hi <= s.len(),
            (out.deep_view(), cur@) == split_all_state(s@.subrange(lo as int, i as int), sep),
        decreases hi - i,
    {
        let c = s[i];
        let ghost before = out.deep_view();
        assert(s@.subrange(lo as int, i + 1).drop_last() =~= s@.subrange(lo as int, i as int));
        if c == sep {
            let done = cur;
            assert(done.deep_view() =~= done@);
            out.push(done);
            assert(out.deep_view() =~= before.push(done@));
            cur = Vec::new();
        } else {
            cur.push(c);
        }
        i += 1;
    }
    let ghost before = out.deep_view();
    let last = cur;
    assert(last.deep_view() =~= last@);
    out.push(last);
    assert(out.deep_view() =~= before.push(last@));
    out
}

/// The bounds of `s` without the `c` at its start and its end.
pub fn strip_bounds(s: &Vec<char>, c: char) -> (r: (usize, usize))
    ensures
        r.0 <= r.1 <= s.len(),
        s@.subrange(r.0 as int, r.1 as int) == stripped(s@, c),
{
    let n = s.len();
    let mut i: usize = 0;
    assert(s@.skip(0) =~= s@);
    while i < n && s[i] == c
        invariant
            i <= n == s.len(),
            leading_run(s@, c) == i + leading_run(s@.skip(i as int), c),
        decreases n - i,
    {
        assert(s@.skip(i as int).drop_first() =~= s@.skip(i + 1));
        i += 1;
    }
    if i == n {
        assert(s@.subrange(n as int, n as int) =~= Seq::<char>::empty());
        return (n, n);
    }
    assert(s@.skip(i as int)[0] == s@[i as int]);
    let mut j: usize = n;
    assert(s@.take(n as int) =~= s@);
    while j > i && s[j - 1] == c
        invariant
            i < n == s.len(),
            i < j <= n,
            s@[i as int] != c,
            trailing_run(s@, c) == (n - j) + trailing_run(s@.take(j as int), c),
        decreases j,
    {
        assert(s@.take(j as int).drop_last() =~= s@.take(j - 1));
        j -= 1;
    }
    assert(s@.take(j as int).last() == s@[j - 1]);
    (i, j)
}

/// The end of `s` once the `c` at its end are left out.
pub fn strip_end_bound(s: &Vec<char>, c: char) -> (r: usize)
    ensures
        r <= s.len(),
        s@.subrange(0, r as int) == stripped_end(s@, c),
{
    let n = s.len();
    let mut j: usize = n;
    assert(s@.take(n as int) =~= s@);
    while j > 0 && s[j - 1] == c
        invariant
            j <= n == s.len(),
            trailing_run(s@, c) == (n - j) + trailing_run(s@.take(j as int), c),
        decreases j,
    {
        assert(s@.take(j as int).drop_last() =~= s@.take(j - 1));
        j -= 1;
    }
    if j > 0 {
        assert(s@.take(j as int).last() == s@[j - 1]);
    }
    j
}

/// The characters `s[lo..hi]`.
pub fn slice_chars(s: &Vec<char>, lo: usize, hi: usize) -> (r: Vec<char>)
    requires
        lo <= hi <= s.len(),
    ensures
        r@ == s@.subrange(lo as int, hi as int),
{
    let mut r: Vec<char> = Vec::new();
    let mut i: usize = lo;
    while i < hi
        invariant
            lo <= i <= hi <= s.len(),
            r@ == s@.subrange(lo as int, i as int),
        decreases hi - i,
    {
        r.push(s[i]);
        assert(r@ =~= s@.subrange(lo as int, i + 1));
        i += 1;
    }
    r
}

/// The strings made of each run of characters.
pub fn strings_of(v: &Vec<Vec<char>>) -> (r: Vec<String>)
    ensures
        r.deep_view() == v.deep_view(),
{
    let mut r: Vec<String> = Vec::new();
    let mut i: usize = 0;
    while i < v.len()
        invariant
            i <= v.len(),
            r.deep_view() == v.deep_view().take(i as int),
        decreases v.len() - i,
    {
        let ghost before = r.deep_view();
        let s = string_of(&v[i]);
        r.push(s);
        assert(v.deep_view()[i as int] == v@[i as int]@);
        assert(r.deep_view() =~= before.push(s@));
        assert(v.deep_view().take(i + 1) =~= v.deep_view().take(i as int).push(v@[i as int]@));
        i += 1;
    }
    assert(v.deep_view().take(v.len() as int) =~= v.deep_view());
    r
}

/// Parses a decimal `usize`: an optional `+`, then one or more digits.
pub fn parse_usize(s: &Vec<char>) -> (r: Option<usize>)
    ensures
        r == usize_of(s@),
{
    match parse_u64(s) {
        Some(v) => if v <= usize::MAX as u64 {
            Some(v as usize)
        } else {
            None
        },
        None => None,
    }
}

/// Parses a decimal `u32`: an optional `+`, then one or more digits.
pub fn parse_u32(s: &Vec<char>) -> (r: Option<u32>)
    ensures
        r == u32_of(s@),
{
    match parse_u64(s) {
        Some(v) => if v <= u32::MAX as u64 {
            Some(v as u32)
        } else {
            None
        },
        None => None,
    }
}

fn digit_to_char(d: u64) -> (c: char)
    requires
        d < 10,
    ensures
        c == digit_char(d as nat),
{
    if d == 0 {
        '0'
    } else if d == 1 {
        '1'
    } else if d == 2 {
        '2'
    } else if d == 3 {
        '3'
    } else if d == 4 {
        '4'
    } else if d == 5 {
        '5'
    } else if d == 6 {
        '6'
    } else if d == 7 {
        '7'
    } else if d == 8 {
        '8'
    } else {
        '9'
    }
}

/// Appends the decimal digits of `n` to `out`.
pub fn push_decimal(n: u64, out: &mut Vec<char>)
    ensures
        final(out)@ == old(out)@ + decimal_text(n as nat),
    decreases n,
{
    if n >= 10 {
        push_decimal(n / 10, out);
    }
    let ghost mid = out@;
    out.push(digit_to_char(n % 10));
    if n >= 10 {
        assert(out@ =~= old(out)@ + decimal_text(n as nat));
    } else {
        assert(out@ =~= old(out)@ + decimal_text(n as nat));
    }
}

/// Appends the characters of `s` to `out`.
pub fn push_str(s: &str, out: &mut Vec<char>)
    ensures
        final(out)@ == old(out)@ + s@,
{
    let c = chars_of(s);
    let mut i: usize = 0;
    while i < c.len()
        invariant
            i <= c.len(),
            c@ == s@,
            out@ == old(out)@ + c@.take(i as int),
        decreases c.len() - i,
    {
        out.push(c[i]);
        assert(c@.take(i + 1) =~= c@.take(i as int).push(c@[i as int]));
        assert(out@ =~= old(out)@ + c@.take(i + 1));
        i += 1;
    }
    assert(c@.take(c.len() as int) =~= c@);
}

proof fn lemma_hex_prefix_le(t: Seq<char>, k: int)
    requires
        all_hex(t),
        0 <= k <= t.len(),
    ensures
        hex_value(t.take(k)) <= hex_value(t),
    decreases t.len(),
{
    if k < t.len() {
        assert(t.drop_last().take(k) =~= t.take(k));
        assert(all_hex(t.drop_last()));
        lemma_hex_prefix_le(t.drop_last(), k);
    } else {
        assert(t.take(k) =~= t);
    }
}

fn hex_digit_value(c: char) -> (r: Option<u64>)
    ensures
        match hex_digit(c) {
            Some(d) => r == Some(d as u64),
            None => r is None,
        },
{
    if '0' <= c && c <= '9' {
        Some((c as u32 - '0' as u32) as u64)
    } else if 'a' <= c && c <= 'f' {
        Some((c as u32 - 'a' as u32 + 10) as u64)
    } else if 'A' <= c && c <= 'F' {
        Some((c as u32 - 'A' as u32 + 10) as u64)
    } else {
        None
    }
}

/// The number written by the hexadecimal digits `s[lo..]`, if there is at
/// least one digit, all are digits and the number fits in a `u64`.
fn hex_from(s: &Vec<char>, lo: usize) -> (r: Option<u64>)
    requires
        lo <= s.len(),
    ensures
        r == (if s@.skip(lo as int).len() > 0 && all_hex(s@.skip(lo as int)) && hex_value(
            s@.skip(lo as int),
        ) <= u64::MAX {
            Some(hex_value(s@.skip(lo as int)) as u64)
        } else {
            None::<u64>
        }),
{
    let n = s.len();
    if lo == n {
        return None;
    }
    let ghost t = s@.skip(lo as int);
    let mut acc: u64 = 0;
    let mut i: usize = lo;
    assert(t.take(0) =~= Seq::<char>::empty());
    while i < n
        invariant
            lo <= i <= n == s.len(),
            t == s@.skip(lo as int),
            all_hex(t.take(i - lo)),
            acc as nat == hex_value(t.take(i - lo)),
        decreases n - i,
    {
        let c = s[i];
        assert(t[i - lo] == c);
        let d = match hex_digit_value(c) {
            Some(d) => d,
            None => {
                assert(!all_hex(t));
                return None;
            },
        };
        assert(t.take(i - lo + 1).drop_last() =~= t.take(i - lo));
        assert(all_hex(t.take(i - lo + 1)));
        assert(d < 16);
        if acc > (u64::MAX - d) / 16 {
            assert(acc * 16 + d > u64::MAX) by (nonlinear_arith)
                requires
                    acc > (u64::MAX - d) / 16,
                    d < 16,
            ;
            proof {
                if all_hex(t) {
                    lemma_hex_prefix_le(t, i - lo + 1);
                }
            }
            return None;
        }
        assert(acc * 16 + d <= u64::MAX) by (nonlinear_arith)
            requires
                acc <= (u64::MAX - d) / 16,
                d < 16,
        ;
        acc = acc * 16 + d;
        i += 1;
    }
    assert(t.take(n - lo) =~= t);
    Some(acc)
}

/// Parses a hexadecimal `u64`: an optional `0x`, an optional `+`, then one
/// or more hexadecimal digits.
pub fn parse_hex_u64(s: &Vec<char>) -> (r: Option<u64>)
    ensures
        r == hex_u64_of(s@),
{
    let mut lo: usize = 0;
    if s.len() >= 2 && s[0] == '0' && s[1] == 'x' {
        lo = 2;
    }
    let ghost a = if s@.len() >= 2 && s@[0] == '0' && s@[1] == 'x' {
        s@.skip(2)
    } else {
        s@
    };
    assert(a =~= s@.skip(lo as int));
    if lo < s.len() && s[lo] == '+' {
        assert(s@.skip(lo + 1) =~= a.drop_first());
        hex_from(s, lo + 1)
    } else {
        hex_from(s, lo)
    }
}

/// Parses a base-16 `u64` with no prefix: an optional `+`, then one or
/// more hexadecimal digits.
pub fn parse_radix16(s: &Vec<char>) -> (r: Option<u64>)
    ensures
        r == radix16_of(s@),
{
    if s.len() > 0 && s[0] == '+' {
        assert(s@.skip(1) =~= s@.drop_first());
        hex_from(s, 1)
    } else {
        assert(s@.skip(0) =~= s@);
        hex_from(s, 0)
    }
}

/// Parses a decimal `i32`: an optional sign, then one or more digits.
pub fn parse_i32(s: &Vec<char>) -> (r: Option<i32>)
    ensures
        r == i32_of(s@),
{
    match parse_i64(s) {
        Some(v) => if i32::MIN as i64 <= v && v <= i32::MAX as i64 {
            Some(v as i32)
        } else {
            None
        },
        None => None,
    }
}

/// Whether the two character sequences are equal.
pub fn chars_eq(a: &Vec<char>, b: &Vec<char>) -> (r: bool)
    ensures
        r == (a@ == b@),
{
    if a.len() != b.len() {
        return false;
    }
    let mut i: usize = 0;
    while i < a.len()
        invariant
            a.len() == b.len(),
            i <= a.len(),
            forall|k: int| 0 <= k < i ==> a@[k] == b@[k],
        decreases a.len() - i,
    {
        if a[i] != b[i] {
            return false;
        }
        i += 1;
    }
    assert(a@ =~= b@);
    true
}

/// Whether `s`, with its ASCII capitals lowered, equals the lower-case `key`.
pub fn folded_equal(s: &Vec<char>, key: &Vec<char>) -> (r: bool)
    ensures
        r == folded_eq(s@, key@),
{
    if s.len() != key.len() {
        return false;
    }
    let mut i: usize = 0;
    while i < s.len()
        invariant
            s.len() == key.len(),
            i <= s.len(),
            forall|k: int| 0 <= k < i ==> folds_to(#[trigger] s@[k], key@[k]),
        decreases s.len() - i,
    {
        let c = s[i];
        let k = key[i];
        let ok = if 'A' <= c && c <= 'Z' {
            c as u32 + 32 == k as u32
        } else {
            c == k
        };
        if !ok {
            return false;
        }
        i += 1;
    }
    true
}

/// Whether `s` begins with `prefix`.
pub fn starts_with(s: &Vec<char>, prefix: &Vec<char>) -> (r: bool)
    ensures
        r == (prefix.len() <= s.len() && s@.take(prefix.len() as int) == prefix@),
{
    if prefix.len() > s.len() {
        return false;
    }
    let mut i: usize = 0;
    while i < prefix.len()
        invariant
            prefix.len() <= s.len(),
            i <= prefix.len(),
            forall|k: int| 0 <= k < i ==> s@[k] == prefix@[k],
        decreases prefix.len() - i,
    {
        if s[i] != prefix[i] {
            assert(s@.take(prefix.len() as int)[i as int] != prefix@[i as int]);
            return false;
        }
        i += 1;
    }
    assert(s@.take(prefix.len() as int) =~= prefix@);
    true
}

/// `s` with every occurrence of `c` taken out.
pub fn without_char(s: &Vec<char>, c: char) -> (r: Vec<char>)
    ensures
        r@ == removed(s@, c),
{
    let mut r: Vec<char> = Vec::new();
    let mut i: usize = 0;
    while i < s.len()
        invariant
            i <= s.len(),
            r@ == removed(s@.take(i as int), c),
        decreases s.len() - i,
    {
        assert(s@.take(i + 1).drop_last() =~= s@.take(i as int));
        if s[i] != c {
            r.push(s[i]);
        }
        i += 1;
    }
    assert(s@.take(s.len() as int) =~= s@);
    r
}

proof fn lemma_prefix_value_le(t: Seq<char>, k: int)
    requires
        all_digits(t),
        0 <= k <= t.len(),
    ensures
        digits_value(t.take(k)) <= digits_value(t),
    decreases t.len(),
{
    if k < t.len() {
        assert(t.drop_last().take(k) =~= t.take(k));
        assert(all_digits(t.drop_last()));
        lemma_prefix_value_le(t.drop_last(), k);
    } else {
        assert(t.take(k) =~= t);
    }
}

/// The number written by the digits `s[lo..]`, if they are one or more
/// digits and the number is at most `limit`.
fn digits_at_most(s: &Vec<char>, lo: usize, limit: u64) -> (r: Option<u64>)
    requires
        lo <= s.len(),
        limit >= 9,
    ensures
        r == (match digit_run(s@.skip(lo as int)) {
            Some(v) => if v <= limit {
                Some(v as u64)
            } else {
                None::<u64>
            },
            None => None,
        }),
{
    let n = s.len();
    if lo == n {
        return None;
    }
    let ghost t = s@.skip(lo as int);
    let mut acc: u64 = 0;
    let mut i: usize = lo;
    assert(t.take(0) =~= Seq::<char>::empty());
    while i < n
        invariant
            lo <= i <= n == s.len(),
            t == s@.skip(lo as int),
            limit >= 9,
            all_digits(t.take(i - lo)),
            acc as nat == digits_value(t.take(i - lo)),
            acc <= limit,
        decreases n - i,
    {
        let c = s[i];
        assert(t[i - lo] == c);
        if !('0' <= c && c <= '9') {
            assert(!all_digits(t));
            return None;
        }
        let d: u64 = (c as u32 - '0' as u32) as u64;
        assert(t.take(i - lo + 1).drop_last() =~= t.take(i - lo));
        assert(all_digits(t.take(i - lo + 1)));
        if acc > (limit - d) / 10 {
            assert(acc * 10 + d > limit) by (nonlinear_arith)
                requires
                    acc > (limit - d) / 10,
                    d <= 9,
                    limit >= 9,
            ;
            proof {
                if all_digits(t) {
                    lemma_prefix_value_le(t, i - lo + 1);
                }
            }
            return None;
        }
        assert(acc * 10 + d <= limit) by (nonlinear_arith)
            requires
                acc <= (limit - d) / 10,
                d <= 9,
                limit >= 9,
        ;
        acc = acc * 10 + d;
        i += 1;
    }
    assert(t.take(n - lo) =~= t);
    Some(acc)
}

/// Parses a decimal `u64`: an optional `+`, then one or more digits.
pub fn parse_u64(s: &Vec<char>) -> (r: Option<u64>)
    ensures
        r == u64_of(s@),
{
    if s.len() > 0 && s[0] == '+' {
        assert(s@.skip(1) =~= s@.drop_first());
        digits_at_most(s, 1, u64::MAX)
    } else {
        assert(s@.skip(0) =~= s@);
        digits_at_most(s, 0, u64::MAX)
    }
}

/// Parses a decimal `i64`: an optional sign, then one or more digits.
pub fn parse_i64(s: &Vec<char>) -> (r: Option<i64>)
    ensures
        r == i64_of(s@),
{
    if s.len() > 0 && s[0] == '-' {
        assert(s@.skip(1) =~= s@.drop_first());
        match digits_at_most(s, 1, 0x8000_0000_0000_0000u64) {
            Some(v) => {
                if v == 0x8000_0000_0000_0000u64 {
                    Some(i64::MIN)
                } else {
                    Some(-(v as i64))
                }
            },
            None => None,
        }
    } else if s.len() > 0 && s[0] == '+' {
        assert(s@.skip(1) =~= s@.drop_first());
        match digits_at_most(s, 1, i64::MAX as u64) {
            Some(v) => Some(v as i64),
            None => None,
        }
    } else {
        assert(s@.skip(0) =~= s@);
        match digits_at_most(s, 0, i64::MAX as u64) {
            Some(v) => Some(v as i64),
            None => None,
        }
    }
}

} // verus!
