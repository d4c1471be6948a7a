//! Tables of named counters as `/proc/<pid>/net/snmp` and `/proc/<pid>/net/netstat`
//! write them: a header line `Section: name name ...` followed by a value line
//! `Section: value value ...`, pair after pair.
use vstd::prelude::*;
use crate::error::MetricError;
use crate::text::{
    chars_of, folded_eq, folded_equal, i64_of, parse_i64, pieces, split_trimmed, split_words,
    string_of, trimmed, words,
};

verus! {

/// One header line and its value line: the section's name, then the
/// counters' names and their values as text, position by position.
pub struct StatRow {
    pub section: Vec<char>,
    pub names: Vec<Vec<char>>,
    pub values: Vec<Vec<char>>,
}

pub type RowView = (Seq<char>, Seq<Seq<char>>, Seq<Seq<char>>);

impl View for StatRow {
    type V = RowView;

    open spec fn view(&self) -> RowView {
        (self.section@, self.names.deep_view(), self.values.deep_view())
    }
}

pub open spec fn rows_view(rows: Seq<StatRow>) -> Seq<RowView> {
    rows.map_values(|r: StatRow| r@)
}

/// The row that a header line and a value line make, if both have the form
/// `section: fields` and they hold as many fields.
pub open spec fn row_of(header: Seq<char>, value: Seq<char>) -> Option<RowView> {
    let hs = pieces(trimmed(header), ':');
    let vs = pieces(trimmed(value), ':');
    if hs.len() != 2 || vs.len() != 2 {
        None
    } else if words(hs[1]).len() != words(vs[1]).len() {
        None
    } else {
        Some((hs[0], words(hs[1]), words(vs[1])))
    }
}

/// The rows of a table, line 0 with line 1, line 2 with line 3, and so on;
/// a last line without a partner is left out. `None` where a pair is malformed.
pub open spec fn table_of(lines: Seq<Seq<char>>) -> Option<Seq<RowView>>
    decreases lines.len(),
{
    if lines.len() < 2 {
        Some(Seq::empty())
    } else {
        match row_of(lines[0], lines[1]) {
            None => None,
            Some(r) => match table_of(lines.skip(2)) {
                None => None,
                Some(t) => Some(seq![r] + t),
            },
        }
    }
}

/// The position of the last of the first `n` names that reads as `key`, or -1.
pub open spec fn last_name_index(names: Seq<Seq<char>>, key: Seq<char>, n: int) -> int
    decreases n,
{
    if n <= 0 {
        -1
    } else if folded_eq(names[n - 1], key) {
        n - 1
    } else {
        last_name_index(names, key, n - 1)
    }
}

/// The value text that the row gives to `key`, if the row is of `section`.
pub open spec fn row_entry(row: RowView, section: Seq<char>, key: Seq<char>) -> Option<Seq<char>> {
    let k = last_name_index(row.1, key, row.1.len() as int);
    if folded_eq(row.0, section) && 0 <= k < row.2.len() {
        Some(row.2[k])
    } else {
        None
    }
}

/// The value text of counter `key` in section `section`: the last one that
/// the table gives, names and sections read case-insensitively.
pub open spec fn entry_text(rows: Seq<RowView>, section: Seq<char>, key: Seq<char>) -> Option<
    Seq<char>,
>
    decreases rows.len(),
{
    if rows.len() == 0 {
        None
    } else {
        match row_entry(rows.last(), section, key) {
            Some(v) => Some(v),
            None => entry_text(rows.drop_last(), section, key),
        }
    }
}

/// Every value that a row of `section` gives a counter named `key` is an `i64`.
pub open spec fn row_parses(row: RowView, section: Seq<char>, key: Seq<char>) -> bool {
    folded_eq(row.0, section) ==> forall|i: int|
        0 <= i < row.1.len() && i < row.2.len() && #[trigger] folded_eq(row.1[i], key) ==> i64_of(
            row.2[i],
        ) is Some
}

/// Every occurrence of counter `key` in section `section` has a value that
/// parses as `i64`, not only the last one.
pub open spec fn field_parses(rows: Seq<RowView>, section: Seq<char>, key: Seq<char>) -> bool {
    forall|j: int| 0 <= j < rows.len() ==> #[trigger] row_parses(rows[j], section, key)
}

/// The value of a counter, `None` where the table does not give it.
pub open spec fn field_value(rows: Seq<RowView>, section: Seq<char>, key: Seq<char>) -> Option<
    i64,
> {
    match entry_text(rows, section, key) {
        Some(t) => i64_of(t),
        None => None,
    }
}

/// The row made of one header line and one value line.
pub fn parse_row(header: &Vec<char>, value: &Vec<char>) -> (r: Result<StatRow, MetricError>)
    ensures
        match row_of(header@, value@) {
            Some(v) => r is Ok && r->Ok_0@ == v,
            None => r is Err,
        },
{
    let hs = split_trimmed(header, ':');
    let vs = split_trimmed(value, ':');
    if hs.len() != 2 {
        return Err(
            MetricError::InvalidFieldNumberError(
                string_of(&chars_of("counter table header")),
                hs.len(),
                string_of(header),
            ),
        );
    }
    if vs.len() != 2 {
        return Err(
            MetricError::InvalidFieldNumberError(
                string_of(&chars_of("counter table values")),
                vs.len(),
                string_of(value),
            ),
        );
    }
    assert(hs.deep_view()[1] == hs@[1]@);
    assert(vs.deep_view()[1] == vs@[1]@);
    assert(hs.deep_view()[0] == hs@[0]@);
    let names = split_words(&hs[1]);
    let values = split_words(&vs[1]);
    if names.len() != values.len() {
        return Err(
            MetricError::InvalidFieldNumberError(
                string_of(&chars_of("counter table field count")),
                names.len(),
                string_of(value),
            ),
        );
    }
    let section = hs[0].clone();
    assert(section@ == hs@[0]@);
    Ok(StatRow { section, names, values })
}

/// The rows of a counter table, from its lines.
pub fn parse_table(lines: &Vec<String>) -> (r: Result<Vec<StatRow>, MetricError>)
    ensures
        match table_of(lines.deep_view()) {
            Some(t) => r is Ok && rows_view(r->Ok_0@) == t,
            None => r is Err,
        },
{
    let ghost all = lines.deep_view();
    let mut out: Vec<StatRow> = Vec::new();
    let mut k: usize = 0;
    assert(all.skip(0) =~= all);
    while lines.len() - k >= 2
        invariant
            all == lines.deep_view(),
            k <= lines.len(),
            table_of(all) == match table_of(all.skip(k as int)) {
                Some(t) => Some(rows_view(out@) + t),
                None => None::<Seq<RowView>>,
            },
        decreases lines.len() - k,
    {
        let ghost rest = all.skip(k as int);
        let h = chars_of(lines[k].as_str());
        let v = chars_of(lines[k + 1].as_str());
        assert(rest[0] == h@ && rest[1] == v@);
        assert(rest.skip(2) =~= all.skip(k + 2));
        let row = parse_row(&h, &v)?;
        let ghost before = out@;
        out.push(row);
        proof {
            assert(rows_view(out@) =~= rows_view(before) + seq![row@]);
            match table_of(all.skip(k + 2)) {
                Some(t) => {
                    assert(rows_view(before) + (seq![row@] + t) =~= rows_view(out@) + t);
                },
                None => {},
            }
        }
        k += 2;
    }
    proof {
        assert(all.skip(k as int).len() < 2);
        assert(rows_view(out@) + Seq::<RowView>::empty() =~= rows_view(out@));
    }
    Ok(out)
}

/// The value text that one row gives to `key`, if the row is of `section`.
fn row_value(row: &StatRow, section: &Vec<char>, key: &Vec<char>) -> (r: Option<Vec<char>>)
    ensures
        match row_entry(row@, section@, key@) {
            Some(t) => r is Some && r->Some_0@ == t,
            None => r is None,
        },
{
    if !folded_equal(&row.section, section) {
        return None;
    }
    let ghost names = row.names.deep_view();
    let mut j: usize = row.names.len();
    while j > 0
        invariant
            j <= row.names.len() == names.len(),
            names == row.names.deep_view(),
            folded_eq(row.section@, section@),
            last_name_index(names, key@, names.len() as int) == last_name_index(
                names,
                key@,
                j as int,
            ),
        decreases j,
    {
        assert(names[j - 1] == row.names@[j - 1]@);
        if folded_equal(&row.names[j - 1], key) {
            assert(last_name_index(names, key@, j as int) == j - 1);
            assert(row@.2.len() == row.values.len());
            if j - 1 < row.values.len() {
                let v = row.values[j - 1].clone();
                assert(row.values.deep_view()[j - 1] == row.values@[j - 1]@);
                assert(v@ == row.values@[j - 1]@);
                return Some(v);
            }
            return None;
        }
        j -= 1;
    }
    None
}

/// The value text of counter `key` in section `section`.
pub fn find_entry(rows: &Vec<StatRow>, section: &Vec<char>, key: &Vec<char>) -> (r: Option<
    Vec<char>,
>)
    ensures
        match entry_text(rows_view(rows@), section@, key@) {
            Some(t) => r is Some && r->Some_0@ == t,
            None => r is None,
        },
{
    let mut i: usize = rows.len();
    assert(rows@.take(rows.len() as int) =~= rows@);
    while i > 0
        invariant
            i <= rows.len(),
            entry_text(rows_view(rows@), section@, key@) == entry_text(
                rows_view(rows@.take(i as int)),
                section@,
                key@,
            ),
        decreases i,
    {
        let ghost prefix = rows_view(rows@.take(i as int));
        assert(prefix.last() == rows@[i - 1]@);
        assert(prefix.drop_last() =~= rows_view(rows@.take(i - 1)));
        match row_value(&rows[i - 1], section, key) {
            Some(v) => {
                return Some(v);
            },
            None => {},
        }
        i -= 1;
    }
    None
}

proof fn lemma_last_name(names: Seq<Seq<char>>, key: Seq<char>, n: int)
    requires
        0 <= n <= names.len(),
    ensures
        last_name_index(names, key, n) == -1 || (0 <= last_name_index(names, key, n) < n && folded_eq(
            names[last_name_index(names, key, n)],
            key,
        )),
    decreases n,
{
    if n > 0 {
        lemma_last_name(names, key, n - 1);
    }
}

/// Where every occurrence parses, so does the one that gives the value.
proof fn lemma_entry_parses(rows: Seq<RowView>, section: Seq<char>, key: Seq<char>)
    requires
        field_parses(rows, section, key),
    ensures
        entry_text(rows, section, key) is Some ==> i64_of(entry_text(rows, section, key)->Some_0) is Some,
    decreases rows.len(),
{
    if rows.len() > 0 {
        let row = rows.last();
        lemma_last_name(row.1, key, row.1.len() as int);
        assert(row_parses(rows[rows.len() - 1], section, key));
        assert forall|j: int| 0 <= j < rows.drop_last().len() implies #[trigger] row_parses(
            rows.drop_last()[j],
            section,
            key,
        ) by {
            assert(rows.drop_last()[j] == rows[j]);
            assert(row_parses(rows[j], section, key));
        }
        lemma_entry_parses(rows.drop_last(), section, key);
    }
}

/// The first value that a row gives counter `key` which is not an `i64`.
fn row_bad_value(row: &StatRow, section: &Vec<char>, key: &Vec<char>) -> (r: Option<Vec<char>>)
    ensures
        r is None <==> row_parses(row@, section@, key@),
{
    if !folded_equal(&row.section, section) {
        return None;
    }
    let ghost names = row.names.deep_view();
    let ghost values = row.values.deep_view();
    let mut i: usize = 0;
    while i < row.names.len() && i < row.values.len()
        invariant
            names == row.names.deep_view(),
            values == row.values.deep_view(),
            folded_eq(row.section@, section@),
            i <= row.names.len(),
            forall|k: int|
                0 <= k < i && k < values.len() && #[trigger] folded_eq(names[k], key@) ==> i64_of(values[k]) is Some,
        decreases row.names.len() - i,
    {
        assert(names[i as int] == row.names@[i as int]@ && values[i as int] == row.values@[i as int]@);
        if folded_equal(&row.names[i], key) && parse_i64(&row.values[i]).is_none() {
            assert(folded_eq(row@.1[i as int], key@) && i64_of(row@.2[i as int]) is None);
            assert(!row_parses(row@, section@, key@));
            return Some(row.values[i].clone());
        }
        i += 1;
    }
    None
}

/// The first value that the table gives counter `key` in section `section`
/// which is not an `i64`.
fn bad_value(rows: &Vec<StatRow>, section: &Vec<char>, key: &Vec<char>) -> (r: Option<Vec<char>>)
    ensures
        r is None <==> field_parses(rows_view(rows@), section@, key@),
{
    let ghost rv = rows_view(rows@);
    let mut j: usize = 0;
    while j < rows.len()
        invariant
            j <= rows.len(),
            rv == rows_view(rows@),
            forall|k: int| 0 <= k < j ==> #[trigger] row_parses(rv[k], section@, key@),
        decreases rows.len() - j,
    {
        assert(rv[j as int] == rows@[j as int]@);
        match row_bad_value(&rows[j], section, key) {
            Some(v) => {
                return Some(v);
            },
            None => {},
        }
        j += 1;
    }
    None
}

/// The value of counter `key` in section `section`: `None` where the table
/// does not give it, an error where any value it gives the counter is not an
/// `i64`.
pub fn read_field(rows: &Vec<StatRow>, section: &Vec<char>, key: &str) -> (r: Result<
    Option<i64>,
    MetricError,
>)
    ensures
        r is Ok <==> field_parses(rows_view(rows@), section@, key@),
        r is Ok ==> r->Ok_0 == field_value(rows_view(rows@), section@, key@),
        r is Err ==> r->Err_0 is ParseIntError,
{
    let k = chars_of(key);
    match bad_value(rows, section, &k) {
        Some(bad) => {
            return Err(MetricError::ParseIntError(string_of(&k), string_of(&bad)));
        },
        None => {},
    }
    proof {
        lemma_entry_parses(rows_view(rows@), section@, key@);
    }
    match find_entry(rows, section, &k) {
        None => Ok(None),
        Some(t) => match parse_i64(&t) {
            Some(v) => Ok(Some(v)),
            None => Err(MetricError::ParseIntError(string_of(&k), string_of(&t))),
        },
    }
}

} // verus!
