//! Best-effort CSV metadata for uploaded data imports.
//!
//! The upload is decoded as UTF-8 and leading byte-order marks are dropped.
//! Its non-blank lines are then counted: the first one is the header, whose
//! comma-separated cells (trimmed, with surrounding double quotes removed)
//! are the columns; the rest are data rows. Quoted commas are not handled.
//!
//! Lines are taken as the pieces between `'\n'` characters. Splitting this
//! way or with `str::lines` (which also drops a `'\r'` before each `'\n'`)
//! gives the same non-blank lines up to trailing whitespace, and the same
//! columns, since cells are trimmed.

use vstd::prelude::*;

use crate::codec::{encode_json_string_array, json_encode_string_array, string_views};
use crate::coverage::count_where;
use crate::error::{AppError, AppResult};
use crate::text::{concat2, is_whitespace, is_whitespace_spec, trim, trim_spec};

verus! {

/// The pieces of `s` between occurrences of `sep` (`str::split`).
pub open spec fn split_spec(s: Seq<char>, sep: char) -> Seq<Seq<char>>
    decreases s.len(),
{
    if s.len() == 0 {
        seq![Seq::empty()]
    } else {
        let p = split_spec(s.drop_last(), sep);
        if s.last() == sep {
            p.push(Seq::empty())
        } else {
            p.update(p.len() - 1, p.last().push(s.last()))
        }
    }
}

/// Every character is whitespace (the line is blank).
pub open spec fn is_blank(p: Seq<char>) -> bool {
    forall|k: int| 0 <= k < p.len() ==> is_whitespace_spec(#[trigger] p[k])
}

/// Predicate on lines: not blank.
pub open spec fn non_blank() -> spec_fn(Seq<char>) -> bool {
    |p: Seq<char>| !is_blank(p)
}

/// The first non-blank line, if any.
pub open spec fn first_non_blank(ps: Seq<Seq<char>>) -> Option<Seq<char>>
    decreases ps.len(),
{
    if ps.len() == 0 {
        None
    } else {
        match first_non_blank(ps.drop_last()) {
            Some(x) => Some(x),
            None => if is_blank(ps.last()) {
                None
            } else {
                Some(ps.last())
            },
        }
    }
}

/// `s` without its leading byte-order marks (`trim_start_matches('\u{feff}')`).
pub open spec fn strip_bom_spec(s: Seq<char>) -> Seq<char>
    decreases s.len(),
{
    if s.len() > 0 && s[0] == '\u{feff}' {
        strip_bom_spec(s.drop_first())
    } else {
        s
    }
}

/// `s` without leading double quotes.
pub open spec fn strip_quotes_start(s: Seq<char>) -> Seq<char>
    decreases s.len(),
{
    if s.len() > 0 && s[0] == '"' {
        strip_quotes_start(s.drop_first())
    } else {
        s
    }
}

/// `s` without trailing double quotes.
pub open spec fn strip_quotes_end(s: Seq<char>) -> Seq<char>
    decreases s.len(),
{
    if s.len() > 0 && s.last() == '"' {
        strip_quotes_end(s.drop_last())
    } else {
        s
    }
}

/// A header cell: trimmed, then surrounding quotes removed (`trim_matches('"')`).
pub open spec fn clean_cell(c: Seq<char>) -> Seq<char> {
    strip_quotes_end(strip_quotes_start(trim_spec(c)))
}

/// The column names of a header line.
pub open spec fn columns_spec(header: Seq<char>) -> Seq<Seq<char>> {
    split_spec(header, ',').map_values(|c: Seq<char>| clean_cell(c))
}

/// What the metadata of an upload is.
pub enum CsvMeta {
    /// The bytes are not UTF-8.
    NotUtf8,
    /// No non-blank line.
    Empty,
    /// Header columns and the number of non-blank lines after the header.
    Table { row_count: nat, columns: Seq<Seq<char>> },
}

pub open spec fn csv_meta_spec(bytes: Seq<u8>) -> CsvMeta {
    if !vstd::utf8::valid_utf8(bytes) {
        CsvMeta::NotUtf8
    } else {
        let lines = split_spec(strip_bom_spec(vstd::utf8::decode_utf8(bytes)), '\n');
        match first_non_blank(lines) {
            None => CsvMeta::Empty,
            Some(h) => CsvMeta::Table {
                row_count: (count_where(lines, non_blank()) - 1) as nat,
                columns: columns_spec(h),
            },
        }
    }
}

/// `std::str::from_utf8`; the error is returned as its display text.
#[verifier::external_body]
fn from_utf8(bytes: &[u8]) -> (r: Result<&str, String>)
    ensures
        r is Ok == vstd::utf8::valid_utf8(bytes@),
        r matches Ok(s) ==> s@ == vstd::utf8::decode_utf8(bytes@),
{
    match std::str::from_utf8(bytes) {
        Ok(s) => Ok(s),
        Err(e) => Err(e.to_string()),
    }
}

proof fn lemma_split_nonempty(s: Seq<char>, sep: char)
    ensures
        split_spec(s, sep).len() >= 1,
    decreases s.len(),
{
    if s.len() > 0 {
        lemma_split_nonempty(s.drop_last(), sep);
    }
}

proof fn lemma_decode_len(bytes: Seq<u8>)
    requires
        vstd::utf8::valid_utf8(bytes),
    ensures
        vstd::utf8::decode_utf8(bytes).len() <= bytes.len(),
    decreases bytes.len(),
{
    if bytes.len() > 0 {
        let rest = vstd::utf8::pop_first_scalar(bytes);
        assert(vstd::utf8::length_of_first_scalar(bytes) >= 1);
        assert(rest.len() < bytes.len());
        lemma_decode_len(rest);
    }
}

proof fn lemma_strip_bom_at(s: Seq<char>, i: int)
    requires
        0 <= i <= s.len(),
        forall|k: int| 0 <= k < i ==> #[trigger] s[k] == '\u{feff}',
        i == s.len() || s[i] != '\u{feff}',
    ensures
        strip_bom_spec(s) == s.subrange(i, s.len() as int),
    decreases i,
{
    if i == 0 {
        assert(s.subrange(0, s.len() as int) =~= s);
    } else {
        let t = s.drop_first();
        assert forall|k: int| 0 <= k < i - 1 implies #[trigger] t[k] == '\u{feff}' by {
            assert(t[k] == s[k + 1]);
        }
        if i < s.len() {
            assert(t[i - 1] == s[i]);
        }
        lemma_strip_bom_at(t, i - 1);
        assert(t.subrange(i - 1, t.len() as int) =~= s.subrange(i, s.len() as int));
    }
}

proof fn lemma_quotes_start_at(s: Seq<char>, i: int)
    requires
        0 <= i <= s.len(),
        forall|k: int| 0 <= k < i ==> #[trigger] s[k] == '"',
        i == s.len() || s[i] != '"',
    ensures
        strip_quotes_start(s) == s.subrange(i, s.len() as int),
    decreases i,
{
    if i == 0 {
        assert(s.subrange(0, s.len() as int) =~= s);
    } else {
        let t = s.drop_first();
        assert forall|k: int| 0 <= k < i - 1 implies #[trigger] t[k] == '"' by {
            assert(t[k] == s[k + 1]);
        }
        if i < s.len() {
            assert(t[i - 1] == s[i]);
        }
        lemma_quotes_start_at(t, i - 1);
        assert(t.subrange(i - 1, t.len() as int) =~= s.subrange(i, s.len() as int));
    }
}

proof fn lemma_quotes_end_at(s: Seq<char>, j: int)
    requires
        0 <= j <= s.len(),
        forall|k: int| j <= k < s.len() ==> #[trigger] s[k] == '"',
        j == 0 || s[j - 1] != '"',
    ensures
        strip_quotes_end(s) == s.subrange(0, j),
    decreases s.len() - j,
{
    if j == s.len() {
        assert(s.subrange(0, j) =~= s);
    } else {
        let t = s.drop_last();
        assert forall|k: int| j <= k < t.len() implies #[trigger] t[k] == '"' by {
            assert(t[k] == s[k]);
        }
        if j > 0 {
            assert(t[j - 1] == s[j - 1]);
        }
        lemma_quotes_end_at(t, j);
        assert(t.subrange(0, j) =~= s.subrange(0, j));
    }
}

/// `s.trim_matches('"')` as an owned string.
fn strip_quotes(s: &str) -> (r: String)
    ensures
        r@ == strip_quotes_end(strip_quotes_start(s@)),
{
    let n = s.unicode_len();
    let mut i: usize = 0;
    while i < n && s.get_char(i) == '"'
        invariant
            n == s@.len(),
            i <= n,
            forall|k: int| 0 <= k < i ==> #[trigger] s@[k] == '"',
        decreases n - i,
    {
        i = i + 1;
    }
    proof {
        lemma_quotes_start_at(s@, i as int);
    }
    let mut j: usize = n;
    while j > i && s.get_char(j - 1) == '"'
        invariant
            n == s@.len(),
            i <= j <= n,
            forall|k: int| j <= k < n ==> #[trigger] s@[k] == '"',
        decreases j,
    {
        j = j - 1;
    }
    let ghost t = s@.subrange(i as int, n as int);
    proof {
        assert forall|k: int| j - i <= k < t.len() implies #[trigger] t[k] == '"' by {
            assert(t[k] == s@[k + i]);
        }
        if j > i {
            assert(t[j - i - 1] == s@[j - 1]);
        }
        lemma_quotes_end_at(t, (j - i) as int);
        assert(t.subrange(0, (j - i) as int) =~= s@.subrange(i as int, j as int));
    }
    s.substring_char(i, j).to_owned()
}

/// One header cell, cleaned.
fn clean(s: &str) -> (r: String)
    ensures
        r@ == clean_cell(s@),
{
    let t = trim(s);
    strip_quotes(t.as_str())
}

proof fn lemma_split_step(s: Seq<char>, sep: char, i: int)
    requires
        0 <= i < s.len(),
    ensures
        split_spec(s.subrange(0, i + 1), sep) == if s[i] == sep {
            split_spec(s.subrange(0, i), sep).push(Seq::empty())
        } else {
            let p = split_spec(s.subrange(0, i), sep);
            p.update(p.len() - 1, p.last().push(s[i]))
        },
{
    assert(s.subrange(0, i + 1).drop_last() =~= s.subrange(0, i));
}

/// The columns of a header line.
fn header_columns(header: &str) -> (cols: Vec<String>)
    ensures
        string_views(cols@) == columns_spec(header@),
{
    let total = header.unicode_len();
    let mut cols: Vec<String> = Vec::new();
    let mut start: usize = 0;
    let mut i: usize = 0;
    for c in it: header.chars()
        invariant
            total == header@.len(),
            i == it.index(),
            it.seq() == header@,
            i <= total,
            start <= i,
            ({
                let p = split_spec(header@.subrange(0, i as int), ',');
                &&& p.len() >= 1
                &&& p.last() == header@.subrange(start as int, i as int)
                &&& string_views(cols@) == p.drop_last().map_values(|c: Seq<char>| clean_cell(c))
            }),
    {
        let ghost p = split_spec(header@.subrange(0, i as int), ',');
        proof {
            lemma_split_step(header@, ',', i as int);
            lemma_split_nonempty(header@.subrange(0, i as int), ',');
        }
        assert(c == header@[i as int]);
        if c == ',' {
            let cell = clean(header.substring_char(start, i));
            let ghost before = cols@;
            cols.push(cell);
            proof {
                let q = p.push(Seq::<char>::empty());
                assert(q.drop_last() =~= p);
                assert(p =~= p.drop_last().push(p.last()));
                assert(string_views(cols@) =~= string_views(before).push(cell@));
                assert(p.map_values(|c: Seq<char>| clean_cell(c)) =~= p.drop_last().map_values(
                    |c: Seq<char>| clean_cell(c),
                ).push(clean_cell(p.last())));
                assert(q.last() =~= header@.subrange((i + 1) as int, (i + 1) as int));
            }
            start = i + 1;
        } else {
            proof {
                let q = p.update(p.len() - 1, p.last().push(c));
                assert(q.drop_last() =~= p.drop_last());
                assert(q.last() =~= header@.subrange(start as int, (i + 1) as int));
            }
        }
        i = i + 1;
    }
    let ghost p = split_spec(header@.subrange(0, total as int), ',');
    let last = clean(header.substring_char(start, total));
    let ghost before = cols@;
    cols.push(last);
    proof {
        assert(header@.subrange(0, total as int) =~= header@);
        assert(p =~= p.drop_last().push(p.last()));
        assert(string_views(cols@) =~= string_views(before).push(last@));
        assert(p.map_values(|c: Seq<char>| clean_cell(c)) =~= p.drop_last().map_values(
            |c: Seq<char>| clean_cell(c),
        ).push(clean_cell(p.last())));
    }
    cols
}

/// Row count and JSON column list of an uploaded CSV: `Ok((None, None))`
/// when it has no non-blank line, an error when it is not UTF-8.
pub fn parse_csv_metadata(bytes: &[u8]) -> (r: AppResult<(Option<i64>, Option<String>)>)
    requires
        bytes@.len() <= i64::MAX,
    ensures
        match csv_meta_spec(bytes@) {
            CsvMeta::NotUtf8 => r matches Err(e) && e is Message,
            CsvMeta::Empty => r matches Ok((None, None)),
            CsvMeta::Table { row_count, columns } => r matches Ok((Some(n), Some(j))) && n
                == row_count && j@ == json_encode_string_array(columns),
        },
{
    let text = match from_utf8(bytes) {
        Ok(t) => t,
        Err(e) => {
            return Err(AppError::Message(concat2("CSV is not valid UTF-8: ", e.as_str())));
        },
    };
    proof {
        lemma_decode_len(bytes@);
    }
    let total = text.unicode_len();
    let mut bom_end: usize = 0;
    while bom_end < total && text.get_char(bom_end) == '\u{feff}'
        invariant
            total == text@.len(),
            bom_end <= total,
            forall|k: int| 0 <= k < bom_end ==> #[trigger] text@[k] == '\u{feff}',
        decreases total - bom_end,
    {
        bom_end = bom_end + 1;
    }
    proof {
        lemma_strip_bom_at(text@, bom_end as int);
    }
    let ghost body = text@.subrange(bom_end as int, total as int);
    let mut count: usize = 0;
    let mut header: Option<(usize, usize)> = None;
    let mut cur_start: usize = bom_end;
    let mut cur_blank: bool = true;
    let mut i: usize = 0;
    for c in it: text.chars()
        invariant
            total == text@.len(),
            total <= i64::MAX,
            i == it.index(),
            it.seq() == text@,
            i <= total,
            bom_end <= total,
            body == text@.subrange(bom_end as int, total as int),
            i <= bom_end ==> cur_start == bom_end && cur_blank && count == 0 && header is None,
            i > bom_end ==> ({
                let p = split_spec(body.subrange(0, i - bom_end), '\n');
                &&& p.len() >= 1
                &&& bom_end <= cur_start <= i
                &&& p.last() == text@.subrange(cur_start as int, i as int)
                &&& cur_blank == is_blank(p.last())
                &&& count == count_where(p.drop_last(), non_blank())
                &&& match header {
                    Some((hs, he)) => hs <= he <= i && first_non_blank(p.drop_last()) == Some(
                        text@.subrange(hs as int, he as int),
                    ),
                    None => first_non_blank(p.drop_last()) is None,
                }
            }),
            count <= cur_start,
            cur_start <= total,
            header is Some ==> count >= 1,
    {
        if i >= bom_end {
            let ghost j = i - bom_end;
            let ghost p = split_spec(body.subrange(0, j), '\n');
            proof {
                lemma_split_step(body, '\n', j);
                lemma_split_nonempty(body.subrange(0, j), '\n');
                assert(body[j] == c);
                if i == bom_end {
                    assert(body.subrange(0, 0) =~= Seq::<char>::empty());
                    assert(p == seq![Seq::<char>::empty()]);
                    assert(p.drop_last() =~= Seq::<Seq<char>>::empty());
                    assert(text@.subrange(cur_start as int, i as int) =~= Seq::<char>::empty());
                }
            }
            if c == '\n' {
                let ghost q = p.push(Seq::<char>::empty());
                proof {
                    assert(q.drop_last() =~= p);
                    assert(p =~= p.drop_last().push(p.last()));
                    assert(q.last() =~= text@.subrange((i + 1) as int, (i + 1) as int));
                    assert(count_where(p, non_blank()) == count_where(p.drop_last(), non_blank())
                        + if non_blank()(p.last()) { 1nat } else { 0nat });
                    assert(non_blank()(p.last()) == !is_blank(p.last()));
                    assert(is_blank(q.last()));
                }
                if !cur_blank {
                    count = count + 1;
                    if header.is_none() {
                        header = Some((cur_start, i));
                    }
                }
                cur_start = i + 1;
                cur_blank = true;
            } else {
                let ghost q = p.update(p.len() - 1, p.last().push(c));
                proof {
                    assert(q.drop_last() =~= p.drop_last());
                    assert(q.last() =~= text@.subrange(cur_start as int, (i + 1) as int));
                    let old_last = p.last();
                    let new_last = old_last.push(c);
                    assert(q.last() == new_last);
                    if is_blank(old_last) && is_whitespace_spec(c) {
                        assert forall|k: int| 0 <= k < new_last.len() implies is_whitespace_spec(
                            #[trigger] new_last[k],
                        ) by {
                            if k < old_last.len() {
                                assert(new_last[k] == old_last[k]);
                            }
                        }
                    }
                    if !is_whitespace_spec(c) {
                        assert(new_last[new_last.len() - 1] == c);
                    }
                    if !is_blank(old_last) {
                        let k = choose|k: int| 0 <= k < old_last.len() && !is_whitespace_spec(old_last[k]);
                        assert(new_last[k] == old_last[k]);
                    }
                }
                cur_blank = cur_blank && is_whitespace(c);
            }
        }
        i = i + 1;
    }
    let ghost p = split_spec(body, '\n');
    proof {
        if total <= bom_end {
            assert(body =~= Seq::<char>::empty());
            assert(p =~= seq![Seq::<char>::empty()]);
            assert(p.drop_last() =~= Seq::<Seq<char>>::empty());
        } else {
            assert(body.subrange(0, total - bom_end) =~= body);
        }
        lemma_split_nonempty(body, '\n');
        assert(p =~= p.drop_last().push(p.last()));
    }
    let final_header = match header {
        Some(h) => Some(h),
        None => if !cur_blank {
            Some((cur_start, total))
        } else {
            None
        },
    };
    let final_count = if !cur_blank {
        count + 1
    } else {
        count
    };
    match final_header {
        None => Ok((None, None)),
        Some((hs, he)) => {
            let header_text = text.substring_char(hs, he);
            let columns = header_columns(header_text);
            let schema = encode_json_string_array(&columns);
            proof {
                assert(final_count >= 1);
                if !cur_blank {
                    assert(p.last().len() > 0);
                }
            }
            Ok((Some((final_count - 1) as i64), Some(schema)))
        },
    }
}

} // verus!
