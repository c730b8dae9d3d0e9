//! Parsing one row of a sheet.
//!
//! The honesty rule: without a header we do NOT guess where the price and
//! where the quantity is, since a wrong price is worse than none. Then the
//! line keeps its title and its last number, the rest is honestly empty.
use vstd::prelude::*;

use super::header::Columns;
use super::{Cell, LineModel, ParsedLine};
use crate::text::{
    chars_of, concat, first_chars, same_chars, string_of, take_chars, to_lowercase, trim, trimmed,
    unicode_lowercase, all_basic, basic_lowercase,
};

verus! {

/// The raw text of a row must not turn into a sheet of paper.
pub const MAX_RAW_LEN: usize = 500;

/// A unit is «кв.м.», not a paragraph.
pub const MAX_UNIT_LEN: usize = 20;

/// A word of one or two letters cannot be the title of a work.
pub const MIN_TITLE_LEN: usize = 3;

/// Units of measure the parser knows.
pub open spec fn units() -> Seq<&'static str> {
    seq![
        "кв.м.",
        "кв.м",
        "м2",
        "м²",
        "пог.м",
        "п.м",
        "м.п.",
        "м/п",
        "м3",
        "м³",
        "шт",
        "компл",
        "ед",
        "т",
        "кг",
        "л",
    ]
}

/// `s` without its ASCII spaces.
pub open spec fn without_spaces(s: Seq<char>) -> Seq<char>
    decreases s.len(),
{
    if s.len() == 0 {
        s
    } else if s.last() == ' ' {
        without_spaces(s.drop_last())
    } else {
        without_spaces(s.drop_last()).push(s.last())
    }
}

/// `text` is a unit of measure: lowercased and without spaces it is one of
/// the known units, with or without a trailing dot.
pub open spec fn is_unit_text(text: Seq<char>) -> bool {
    is_unit_lowered(unicode_lowercase(text))
}

/// `lower`, an already lowercased text, is a unit of measure once its
/// spaces are removed, with or without a trailing dot.
pub open spec fn is_unit_lowered(lower: Seq<char>) -> bool {
    let normalized = without_spaces(lower);
    exists|k: int|
        0 <= k < units().len() && (normalized == #[trigger] units()[k]@ || normalized
            == units()[k]@ + "."@)
}

/// The trimmed texts of a row's cells.
pub open spec fn trimmed_texts<N>(row: Seq<Cell<N>>) -> Seq<Seq<char>> {
    row.map_values(|c: Cell<N>| trim(c.text@))
}

/// The non-empty pieces of `s`, in order.
pub open spec fn nonempty_pieces(s: Seq<Seq<char>>) -> Seq<Seq<char>>
    decreases s.len(),
{
    if s.len() == 0 {
        s
    } else if s.last().len() > 0 {
        nonempty_pieces(s.drop_last()).push(s.last())
    } else {
        nonempty_pieces(s.drop_last())
    }
}

/// The pieces joined with `sep` between them.
pub open spec fn join(pieces: Seq<Seq<char>>, sep: Seq<char>) -> Seq<char>
    decreases pieces.len(),
{
    if pieces.len() == 0 {
        Seq::<char>::empty()
    } else if pieces.len() == 1 {
        pieces[0]
    } else {
        join(pieces.drop_last(), sep) + sep + pieces.last()
    }
}

/// The row as a person saw it: the non-empty trimmed cells joined with
/// " | ", cut to `MAX_RAW_LEN` characters.
pub open spec fn raw_text_of<N>(row: Seq<Cell<N>>) -> Seq<char> {
    take_chars(join(nonempty_pieces(trimmed_texts(row)), " | "@), MAX_RAW_LEN as int)
}

/// The title cell `i` gives: a cell without a number whose trimmed text has
/// at least `MIN_TITLE_LEN` characters and is not a unit.
pub open spec fn title_in<N>(row: Seq<Cell<N>>, i: int) -> Option<Seq<char>> {
    if 0 <= i < row.len() && row[i].number is None && trim(row[i].text@).len() >= MIN_TITLE_LEN
        && !is_unit_text(trim(row[i].text@)) {
        Some(trim(row[i].text@))
    } else {
        None
    }
}

/// The first title among the cells from `from` on.
pub open spec fn first_title_from<N>(row: Seq<Cell<N>>, from: int) -> Option<Seq<char>>
    decreases row.len() - from,
{
    if from < 0 || from >= row.len() {
        None
    } else if title_in(row, from) is Some {
        title_in(row, from)
    } else {
        first_title_from(row, from + 1)
    }
}

/// The first cell from `from` on whose trimmed text is a unit.
pub open spec fn unit_from<N>(row: Seq<Cell<N>>, from: int) -> Option<Seq<char>>
    decreases row.len() - from,
{
    if from < 0 || from >= row.len() {
        None
    } else if is_unit_text(trim(row[from].text@)) {
        Some(trim(row[from].text@))
    } else {
        unit_from(row, from + 1)
    }
}

/// The number of the last cell before `end` that holds one.
pub open spec fn last_number_before<N>(row: Seq<Cell<N>>, end: int) -> Option<N>
    decreases end,
{
    if end <= 0 || end > row.len() {
        None
    } else if row[end - 1].number is Some {
        row[end - 1].number
    } else {
        last_number_before(row, end - 1)
    }
}

/// The number in cell `i`, if that cell exists and holds one.
pub open spec fn number_in<N>(row: Seq<Cell<N>>, i: Option<usize>) -> Option<N> {
    match i {
        Some(i) => if i < row.len() {
            row[i as int].number
        } else {
            None
        },
        None => None,
    }
}

/// The unit in the unit column: its trimmed text, if not empty and not
/// longer than `MAX_UNIT_LEN`.
pub open spec fn unit_in<N>(row: Seq<Cell<N>>, i: Option<usize>) -> Option<Seq<char>> {
    match i {
        Some(i) => if i < row.len() && trim(row[i as int].text@).len() > 0 && trim(
            row[i as int].text@,
        ).len() <= MAX_UNIT_LEN {
            Some(trim(row[i as int].text@))
        } else {
            None
        },
        None => None,
    }
}

/// The title in the title column, or else the first title of the row.
pub open spec fn column_title<N>(row: Seq<Cell<N>>, columns: Columns) -> Option<Seq<char>> {
    let by_column = match columns.title {
        Some(i) => title_in(row, i as int),
        None => None,
    };
    if by_column is Some {
        by_column
    } else {
        first_title_from(row, 0)
    }
}

/// The fields the row gives before the final checks.
pub open spec fn filled<N>(sheet: Seq<char>, row: Seq<Cell<N>>, columns: Option<Columns>) -> LineModel<N> {
    let raw = raw_text_of(row);
    let line = match columns {
        Some(c) => LineModel {
            sheet,
            raw_text: raw,
            title: column_title(row, c),
            unit: unit_in(row, c.unit),
            quantity: number_in(row, c.quantity),
            price: number_in(row, c.price),
            total: number_in(row, c.total),
        },
        None => LineModel {
            sheet,
            raw_text: raw,
            title: first_title_from(row, 0),
            unit: None,
            quantity: None,
            price: None,
            total: last_number_before(row, row.len() as int),
        },
    };
    if line.unit is None {
        LineModel { unit: unit_from(row, 0), ..line }
    } else {
        line
    }
}

/// The line a row of sheet `sheet` gives: none for a row with no text; a
/// line whose title and unit are dropped when it is not recognised (a title
/// without a number is a section heading, not a work).
pub open spec fn line_of<N>(sheet: Seq<char>, row: Seq<Cell<N>>, columns: Option<Columns>) -> Option<
    LineModel<N>,
> {
    if raw_text_of(row).len() == 0 {
        None
    } else {
        let line = filled(sheet, row, columns);
        if line.recognized() {
            Some(line)
        } else {
            Some(LineModel { title: None, unit: None, ..line })
        }
    }
}

/// The line a row above the header gives: its raw text only.
pub open spec fn raw_line_of<N>(sheet: Seq<char>, row: Seq<Cell<N>>) -> Option<LineModel<N>> {
    if raw_text_of(row).len() == 0 {
        None
    } else {
        Some(
            LineModel {
                sheet,
                raw_text: raw_text_of(row),
                title: None,
                unit: None,
                quantity: None,
                price: None,
                total: None,
            },
        )
    }
}

fn remove_spaces(s: &[char]) -> (r: Vec<char>)
    ensures
        r@ == without_spaces(s@),
{
    let mut r: Vec<char> = Vec::new();
    let mut i: usize = 0;
    while i < s.len()
        invariant
            i <= s@.len(),
            r@ == without_spaces(s@.take(i as int)),
        decreases s@.len() - i,
    {
        assert(s@.take(i + 1).drop_last() =~= s@.take(i as int));
        if s[i] != ' ' {
            r.push(s[i]);
        }
        i += 1;
    }
    assert(s@.take(s@.len() as int) =~= s@);
    r
}

/// Whether `text` is a unit of measure.
pub fn is_unit(text: &str) -> (r: bool)
    ensures
        r == is_unit_text(text@),
        all_basic(text@) ==> r == is_unit_lowered(basic_lowercase(text@)),
{
    let lower = to_lowercase(text);
    let lower_chars = chars_of(lower.as_str());
    let normalized = remove_spaces(lower_chars.as_slice());
    let list: [&'static str; 16] = [
        "кв.м.",
        "кв.м",
        "м2",
        "м²",
        "пог.м",
        "п.м",
        "м.п.",
        "м/п",
        "м3",
        "м³",
        "шт",
        "компл",
        "ед",
        "т",
        "кг",
        "л",
    ];
    assert(list@ =~= units());
    let dot = chars_of(".");
    let mut k: usize = 0;
    while k < 16
        invariant
            k <= 16,
            list@ == units(),
            dot@ == "."@,
            normalized@ == without_spaces(unicode_lowercase(text@)),
            all_basic(text@) ==> unicode_lowercase(text@) == basic_lowercase(text@),
            forall|j: int|
                0 <= j < k ==> !(normalized@ == #[trigger] units()[j]@ || normalized@ == units()[j]@
                    + "."@),
        decreases 16 - k,
    {
        let unit = chars_of(list[k]);
        let dotted = concat(unit.as_slice(), dot.as_slice());
        if same_chars(normalized.as_slice(), unit.as_slice()) || same_chars(
            normalized.as_slice(),
            dotted.as_slice(),
        ) {
            assert(normalized@ == units()[k as int]@ || normalized@ == units()[k as int]@ + "."@);
            return true;
        }
        k += 1;
    }
    false
}

/// The trimmed text of a cell.
fn cell_text<N>(cell: &Cell<N>) -> (r: Vec<char>)
    ensures
        r@ == trim(cell.text@),
{
    let chars = chars_of(cell.text.as_str());
    trimmed(chars.as_slice())
}

/// The raw text of a row.
pub fn raw_text<N>(row: &[Cell<N>]) -> (r: String)
    ensures
        r@ == raw_text_of(row@),
{
    let sep = chars_of(" | ");
    let mut joined: Vec<char> = Vec::new();
    let mut count: usize = 0;
    let mut i: usize = 0;
    while i < row.len()
        invariant
            i <= row@.len(),
            sep@ == " | "@,
            count == nonempty_pieces(trimmed_texts(row@).take(i as int)).len(),
            count <= i,
            joined@ == join(nonempty_pieces(trimmed_texts(row@).take(i as int)), " | "@),
        decreases row@.len() - i,
    {
        let piece = cell_text(&row[i]);
        let ghost before = trimmed_texts(row@).take(i as int);
        let ghost after = trimmed_texts(row@).take(i + 1);
        assert(after.drop_last() =~= before);
        assert(after.last() == trim(row@[i as int].text@));
        if piece.len() > 0 {
            if count > 0 {
                joined = concat(joined.as_slice(), sep.as_slice());
            }
            joined = concat(joined.as_slice(), piece.as_slice());
            proof {
                let ps = nonempty_pieces(after);
                assert(ps.drop_last() =~= nonempty_pieces(before));
                assert(ps.last() == piece@);
            }
            count += 1;
        }
        i += 1;
    }
    assert(trimmed_texts(row@).take(row@.len() as int) =~= trimmed_texts(row@));
    let cut = first_chars(joined.as_slice(), MAX_RAW_LEN);
    string_of(cut.as_slice())
}

/// The title cell `index` gives.
pub fn title_at<N>(row: &[Cell<N>], index: usize) -> (r: Option<String>)
    ensures
        r matches Some(s) ==> title_in(row@, index as int) == Some(s@),
        r is None ==> title_in(row@, index as int) is None,
{
    if index >= row.len() {
        return None;
    }
    let text = cell_text(&row[index]);
    if row[index].number.is_none() && text.len() >= MIN_TITLE_LEN {
        let s = string_of(text.as_slice());
        if !is_unit(s.as_str()) {
            return Some(s);
        }
    }
    None
}

/// The first title of the row.
pub fn first_title<N>(row: &[Cell<N>]) -> (r: Option<String>)
    ensures
        r matches Some(s) ==> first_title_from(row@, 0) == Some(s@),
        r is None ==> first_title_from(row@, 0) is None,
{
    let mut index: usize = row.len();
    let mut found: Option<String> = None;
    // walk from the end, so that what is kept is the first title
    while index > 0
        invariant
            index <= row@.len(),
            found matches Some(s) ==> first_title_from(row@, index as int) == Some(s@),
            found is None ==> first_title_from(row@, index as int) is None,
        decreases index,
    {
        index -= 1;
        let here = title_at(row, index);
        if here.is_some() {
            found = here;
        }
    }
    found
}

/// The number in cell `index`, if that cell exists.
pub fn number_at<N: Copy>(row: &[Cell<N>], index: Option<usize>) -> (r: Option<N>)
    ensures
        r == number_in(row@, index),
{
    match index {
        Some(i) => if i < row.len() {
            row[i].number
        } else {
            None
        },
        None => None,
    }
}

/// The first cell of the row that is a unit.
pub fn unit_of<N>(row: &[Cell<N>]) -> (r: Option<String>)
    ensures
        r matches Some(s) ==> unit_from(row@, 0) == Some(s@),
        r is None ==> unit_from(row@, 0) is None,
{
    let mut index: usize = row.len();
    let mut found: Option<String> = None;
    while index > 0
        invariant
            index <= row@.len(),
            found matches Some(s) ==> unit_from(row@, index as int) == Some(s@),
            found is None ==> unit_from(row@, index as int) is None,
        decreases index,
    {
        index -= 1;
        let text = cell_text(&row[index]);
        let s = string_of(text.as_slice());
        if is_unit(s.as_str()) {
            found = Some(s);
        }
    }
    found
}

/// The unit in the unit column.
fn unit_at<N>(row: &[Cell<N>], index: Option<usize>) -> (r: Option<String>)
    ensures
        r matches Some(s) ==> unit_in(row@, index) == Some(s@),
        r is None ==> unit_in(row@, index) is None,
{
    match index {
        Some(i) => {
            if i < row.len() {
                let text = cell_text(&row[i]);
                if text.len() > 0 && text.len() <= MAX_UNIT_LEN {
                    return Some(string_of(text.as_slice()));
                }
            }
            None
        },
        None => None,
    }
}

/// The last number of the row: without a header it is the total, and it is
/// the hardest one to get wrong.
fn last_number<N: Copy>(row: &[Cell<N>]) -> (r: Option<N>)
    ensures
        r == last_number_before(row@, row@.len() as int),
{
    let mut end: usize = row.len();
    while end > 0
        invariant
            end <= row@.len(),
            last_number_before(row@, row@.len() as int) == last_number_before(row@, end as int),
        decreases end,
    {
        if row[end - 1].number.is_some() {
            return row[end - 1].number;
        }
        end -= 1;
    }
    None
}

pub open spec fn deref_columns(columns: Option<&Columns>) -> Option<Columns> {
    match columns {
        Some(c) => Some(*c),
        None => None,
    }
}

/// Parse a row of sheet `sheet`, by the columns of the header when there is
/// one.
pub fn parse<N: Copy>(sheet: &str, row: &[Cell<N>], columns: Option<&Columns>) -> (r: Option<
    ParsedLine<N>,
>)
    ensures
        r matches Some(l) ==> line_of(sheet@, row@, deref_columns(columns)) == Some(
            l.model(),
        ),
        r is None ==> line_of(sheet@, row@, deref_columns(columns)) is None,
{
    let raw = raw_text(row);
    if raw.as_str().is_empty() {
        return None;
    }
    let mut parsed = match columns {
        Some(c) => {
            let by_column = match c.title {
                Some(i) => title_at(row, i),
                None => None,
            };
            let title = if by_column.is_some() {
                by_column
            } else {
                first_title(row)
            };
            ParsedLine {
                sheet: sheet.to_owned(),
                raw_text: raw,
                title,
                unit: unit_at(row, c.unit),
                quantity: number_at(row, c.quantity),
                price: number_at(row, c.price),
                total: number_at(row, c.total),
            }
        },
        None => ParsedLine {
            sheet: sheet.to_owned(),
            raw_text: raw,
            title: first_title(row),
            unit: None,
            quantity: None,
            price: None,
            total: last_number(row),
        },
    };
    if parsed.unit.is_none() {
        parsed.unit = unit_of(row);
    }
    // a title without a single number is a section heading («СТЕНЫ»), not a
    // work: such a line stays raw, so as not to pass it off as a position
    if !parsed.is_recognized() {
        parsed.title = None;
        parsed.unit = None;
    }
    Some(parsed)
}

/// A row without recognition: above the header lie the name of the object
/// and requisites; they are shown as they are.
pub fn raw<N>(sheet: &str, row: &[Cell<N>]) -> (r: Option<ParsedLine<N>>)
    ensures
        r matches Some(l) ==> raw_line_of(sheet@, row@) == Some(l.model()),
        r is None ==> raw_line_of(sheet@, row@) is None,
{
    let raw = raw_text(row);
    if raw.as_str().is_empty() {
        return None;
    }
    Some(
        ParsedLine {
            sheet: sheet.to_owned(),
            raw_text: raw,
            title: None,
            unit: None,
            quantity: None,
            price: None,
            total: None,
        },
    )
}

} // verus!
