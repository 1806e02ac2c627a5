//! Reading the flat metrics of a finished run: the header and the last data
//! row of its CSV file, and which files of a run directory are candidates.
use vstd::prelude::*;
use crate::paths::{extension_of, file_name_of, std_extension, std_file_name};
use crate::numbers::{pieces_between, split_on, trim_chars, trimmed};
use crate::text::{chars_of, has_prefix, starts_with, str_eq, string_from_chars};

verus! {

/// A line as `str::lines` yields it from a piece that a `\n` ended: without
/// the `\r` right before that `\n`.
pub open spec fn strip_cr(piece: Seq<char>) -> Seq<char> {
    if piece.len() > 0 && piece.last() == '\r' {
        piece.drop_last()
    } else {
        piece
    }
}

/// The lines of a text as `str::lines` yields them: the pieces between `\n`,
/// each without the `\r` before its `\n`; a last piece that no `\n` ends is a
/// line unless it is empty.
pub open spec fn text_lines(text: Seq<char>) -> Seq<Seq<char>> {
    let pieces = pieces_between(text, '\n');
    let ended = pieces.drop_last().map_values(|p: Seq<char>| strip_cr(p));
    if pieces.last().len() == 0 {
        ended
    } else {
        ended.push(pieces.last())
    }
}

/// The last line before `k`, after the header line, holding more than
/// whitespace; or zero when there is none.
pub open spec fn last_data_line(lines: Seq<Seq<char>>, k: int) -> int
    decreases k,
{
    if k <= 1 {
        0
    } else if trimmed(lines[k - 1]).len() > 0 {
        k - 1
    } else {
        last_data_line(lines, k - 1)
    }
}

/// Why a metrics file cannot be read.
#[derive(Clone, Copy, Debug, PartialEq, Eq, Structural)]
pub enum CsvError {
    /// The text has no line at all.
    NoHeader,
    /// No line after the header holds data.
    NoDataRows,
    /// The header and the last row have different numbers of fields.
    LengthMismatch,
}

pub open spec fn pair_views(row: Seq<(String, String)>) -> Seq<(Seq<char>, Seq<char>)> {
    row.map_values(|p: (String, String)| (p.0@, p.1@))
}

/// The header fields paired with the fields of the last data row.
pub open spec fn zip_fields(names: Seq<Seq<char>>, values: Seq<Seq<char>>) -> Seq<(Seq<char>, Seq<char>)> {
    Seq::new(names.len(), |i: int| (names[i], values[i]))
}

fn lines_of(text: &Vec<char>) -> (r: Vec<Vec<char>>)
    ensures
        r@.len() == text_lines(text@).len(),
        forall|k: int| 0 <= k < r@.len() ==> (#[trigger] r@[k])@ == text_lines(text@)[k],
{
    let pieces = split_on(text, '\n');
    let ghost all = pieces_between(text@, '\n');
    proof {
        crate::numbers::lemma_pieces_nonempty(text@, '\n');
    }
    let n = pieces.len();
    let mut out: Vec<Vec<char>> = Vec::new();
    let mut k: usize = 0;
    while k + 1 < n
        invariant
            all == pieces_between(text@, '\n'),
            n == pieces@.len() == all.len(),
            n >= 1,
            forall|j: int| 0 <= j < n ==> (#[trigger] pieces@[j])@ == all[j],
            k < n,
            out@.len() == k,
            forall|j: int| 0 <= j < k ==> (#[trigger] out@[j])@ == strip_cr(all[j]),
        decreases n - k,
    {
        let piece = &pieces[k];
        let m = piece.len();
        let mut line: Vec<char> = Vec::new();
        let keep = if m > 0 && piece[m - 1] == '\r' {
            m - 1
        } else {
            m
        };
        let mut i: usize = 0;
        while i < keep
            invariant
                keep <= m == piece@.len(),
                i <= keep,
                line@ == piece@.take(i as int),
            decreases keep - i,
        {
            line.push(piece[i]);
            assert(line@ =~= piece@.take(i as int + 1));
            i = i + 1;
        }
        assert(line@ =~= strip_cr(all[k as int]));
        out.push(line);
        k = k + 1;
    }
    let ghost ended = all.drop_last().map_values(|p: Seq<char>| strip_cr(p));
    assert(out@.len() == ended.len());
    let last = &pieces[n - 1];
    if last.len() > 0 {
        out.push(last.clone());
    }
    out
}

/// Pairs the header of a metrics CSV text with its last data row.
pub fn last_csv_row(text: &str) -> (r: Result<Vec<(String, String)>, CsvError>)
    ensures
        ({
            let lines = text_lines(text@);
            let row = last_data_line(lines, lines.len() as int);
            if lines.len() == 0 {
                r == Err::<Vec<(String, String)>, CsvError>(CsvError::NoHeader)
            } else if row == 0 {
                r == Err::<Vec<(String, String)>, CsvError>(CsvError::NoDataRows)
            } else if pieces_between(lines[0], ',').len() != pieces_between(lines[row], ',').len() {
                r == Err::<Vec<(String, String)>, CsvError>(CsvError::LengthMismatch)
            } else {
                r matches Ok(pairs) && pair_views(pairs@) == zip_fields(
                    pieces_between(lines[0], ','),
                    pieces_between(lines[row], ','),
                )
            }
        }),
{
    let lines = lines_of(&chars_of(text));
    let ghost all = text_lines(text@);
    let n = lines.len();
    if n == 0 {
        return Err(CsvError::NoHeader);
    }
    let mut k: usize = n;
    while k > 1 && trim_chars(&lines[k - 1]).len() == 0
        invariant
            n == all.len() == lines@.len(),
            forall|j: int| 0 <= j < n ==> (#[trigger] lines@[j])@ == all[j],
            1 <= k <= n,
            last_data_line(all, n as int) == last_data_line(all, k as int),
        decreases k,
    {
        k = k - 1;
    }
    if k <= 1 {
        return Err(CsvError::NoDataRows);
    }
    let row = k - 1;
    assert(last_data_line(all, k as int) == row);
    let names = split_on(&lines[0], ',');
    let values = split_on(&lines[row], ',');
    if names.len() != values.len() {
        return Err(CsvError::LengthMismatch);
    }
    let ghost expected = zip_fields(pieces_between(all[0], ','), pieces_between(all[row as int], ','));
    let mut pairs: Vec<(String, String)> = Vec::new();
    let mut i: usize = 0;
    while i < names.len()
        invariant
            n == all.len(),
            1 <= row < n,
            expected == zip_fields(pieces_between(all[0], ','), pieces_between(all[row as int], ',')),
            names@.len() == values@.len() == expected.len(),
            forall|j: int| 0 <= j < names@.len() ==> (#[trigger] names@[j])@ == pieces_between(all[0], ',')[j],
            forall|j: int| 0 <= j < values@.len() ==> (#[trigger] values@[j])@ == pieces_between(all[row as int], ',')[j],
            i <= names@.len(),
            pair_views(pairs@) == expected.take(i as int),
        decreases names@.len() - i,
    {
        let name_chars = names[i].clone();
        let value_chars = values[i].clone();
        assert(name_chars@ =~= names@[i as int]@);
        assert(value_chars@ =~= values@[i as int]@);
        let name = string_from_chars(name_chars);
        let value = string_from_chars(value_chars);
        let ghost before = pairs@;
        assert(expected[i as int] == (names@[i as int]@, values@[i as int]@));
        pairs.push((name, value));
        assert(pair_views(pairs@) =~= pair_views(before).push((names@[i as int]@, values@[i as int]@)));
        assert(expected.take(i as int + 1) =~= expected.take(i as int).push(expected[i as int]));
        i = i + 1;
    }
    assert(expected.take(i as int) =~= expected);
    Ok(pairs)
}

/// The value of the last field named `name` in a row, if any.
pub open spec fn field_text(row: Seq<(Seq<char>, Seq<char>)>, name: Seq<char>) -> Option<Seq<char>>
    decreases row.len(),
{
    if row.len() == 0 {
        None
    } else if row.last().0 == name {
        Some(row.last().1)
    } else {
        field_text(row.drop_last(), name)
    }
}

pub fn csv_field(row: &Vec<(String, String)>, name: &str) -> (r: Option<String>)
    ensures
        match field_text(pair_views(row@), name@) {
            Some(v) => r matches Some(s) && s@ == v,
            None => r is None,
        },
{
    let mut k: usize = row.len();
    assert(pair_views(row@).take(k as int) =~= pair_views(row@));
    while k > 0
        invariant
            k <= row@.len(),
            field_text(pair_views(row@), name@) == field_text(pair_views(row@).take(k as int), name@),
        decreases k,
    {
        let ghost prefix = pair_views(row@).take(k as int);
        assert(prefix.drop_last() =~= pair_views(row@).take(k - 1));
        if str_eq(row[k - 1].0.as_str(), name) {
            return Some(row[k - 1].1.clone());
        }
        k = k - 1;
    }
    None
}

/// A candidate artifact of a run directory: its name starts with `prefix`
/// and its extension is exactly `extension`.
pub open spec fn spec_artifact_candidate(path: Seq<char>, prefix: Seq<char>, extension: Seq<char>) -> bool {
    &&& std_file_name(path) matches Some(name) && has_prefix(name, prefix)
    &&& std_extension(path) == Some(extension)
}

pub fn artifact_candidate(path: &str, prefix: &str, extension: &str) -> (r: bool)
    ensures
        r == spec_artifact_candidate(path@, prefix@, extension@),
{
    let named = match file_name_of(path) {
        Some(n) => starts_with(&chars_of(n.as_str()), prefix),
        None => false,
    };
    let extended = match extension_of(path) {
        Some(e) => str_eq(e.as_str(), extension),
        None => false,
    };
    named && extended
}

/// A field read from a row is the value of the last field under that name:
/// nothing when no field has the name, else the value paired with its last
/// occurrence.
pub proof fn lemma_field_text_takes_last(row: Seq<(Seq<char>, Seq<char>)>, name: Seq<char>)
    ensures
        field_text(row, name) is None <==> forall|i: int| 0 <= i < row.len() ==> (#[trigger] row[i]).0 != name,
        field_text(row, name) matches Some(v) ==> exists|i: int|
            0 <= i < row.len() && #[trigger] row[i] == (name, v) && forall|j: int|
                i < j < row.len() ==> (#[trigger] row[j]).0 != name,
    decreases row.len(),
{
    if row.len() > 0 {
        lemma_field_text_takes_last(row.drop_last(), name);
        let r = row.drop_last();
        assert forall|i: int| 0 <= i < r.len() implies r[i] == row[i] by {}
        if row.last().0 == name {
            let i = row.len() - 1;
            assert(row[i] == (name, row.last().1));
        } else if field_text(r, name) is Some {
            let v = field_text(r, name)->0;
            let i = choose|i: int|
                0 <= i < r.len() && #[trigger] r[i] == (name, v) && forall|j: int|
                    i < j < r.len() ==> (#[trigger] r[j]).0 != name;
            assert(row[i] == (name, v));
            assert forall|j: int| i < j < row.len() implies (#[trigger] row[j]).0 != name by {
                if j < r.len() {
                    assert(row[j] == r[j]);
                }
            }
        } else {
            assert forall|i: int| 0 <= i < row.len() implies (#[trigger] row[i]).0 != name by {
                if i < r.len() {
                    assert(row[i] == r[i]);
                }
            }
        }
    }
}

} // verus!
