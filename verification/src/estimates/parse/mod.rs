//! Parsing an estimate file into lines.
//!
//! The parser is lenient: if the file was read, the estimate is parsed. A
//! row it could not understand is neither dropped nor an error: it is kept as
//! raw text, and a person sees it in the block "ask the crew what this is".
//! Only a file that cannot be read at all fails.
//!
//! Numbers are carried as `N`: the parser copies them from the cells it is
//! given and never computes with them.
use vstd::prelude::*;

pub mod book;
pub mod header;
pub mod line;

use header::{find, header_at, Columns};
use line::{line_of, raw_line_of};

verus! {

/// A cell: the text as a person saw it, and the number in it, if there is one.
#[derive(Debug)]
pub struct Cell<N> {
    pub text: String,
    pub number: Option<N>,
}

/// A sheet of the book: its name and its rows of cells.
pub struct Sheet<N> {
    pub name: String,
    pub rows: Vec<Vec<Cell<N>>>,
}

/// A line of the estimate after parsing. Recognised fields may be empty:
/// then the line has only its raw text.
#[derive(Debug)]
pub struct ParsedLine<N> {
    pub sheet: String,
    pub raw_text: String,
    pub title: Option<String>,
    pub unit: Option<String>,
    pub quantity: Option<N>,
    pub price: Option<N>,
    pub total: Option<N>,
}

/// A parsed line as values.
pub ghost struct LineModel<N> {
    pub sheet: Seq<char>,
    pub raw_text: Seq<char>,
    pub title: Option<Seq<char>>,
    pub unit: Option<Seq<char>>,
    pub quantity: Option<N>,
    pub price: Option<N>,
    pub total: Option<N>,
}

pub open spec fn opt_view(o: Option<String>) -> Option<Seq<char>> {
    match o {
        Some(s) => Some(s@),
        None => None,
    }
}

impl<N> LineModel<N> {
    /// A title and at least one number: without a number it is just a
    /// section heading.
    pub open spec fn recognized(self) -> bool {
        self.title is Some && (self.quantity is Some || self.price is Some || self.total is Some)
    }
}

impl<N> ParsedLine<N> {
    pub open spec fn model(&self) -> LineModel<N> {
        LineModel {
            sheet: self.sheet@,
            raw_text: self.raw_text@,
            title: opt_view(self.title),
            unit: opt_view(self.unit),
            quantity: self.quantity,
            price: self.price,
            total: self.total,
        }
    }

    /// The line counts as recognised when it has a title and at least one
    /// number.
    pub fn is_recognized(&self) -> (r: bool)
        ensures
            r == self.model().recognized(),
    {
        self.title.is_some() && (self.quantity.is_some() || self.price.is_some()
            || self.total.is_some())
    }
}

/// Why a file could not be read. Each variant is a localisation key: the
/// text is put in, in the user's language, when the answer is given.
#[derive(PartialEq, Eq, Structural, Debug)]
pub enum ParseError {
    /// the file does not open as an Excel book
    Unreadable,
    /// the book opened, but holds not a single non-empty row
    NoData,
    /// the book is too big: estimates do not have that many sheets and rows
    TooBig,
}

impl Clone for ParseError {
    fn clone(&self) -> (r: Self)
        ensures
            r == *self,
    {
        *self
    }
}

impl Copy for ParseError {
}

impl ParseError {
    pub fn key(self) -> (r: &'static str)
        ensures
            self == ParseError::Unreadable ==> r@ == "error-estimate-unreadable"@,
            self == ParseError::NoData ==> r@ == "error-estimate-no-data"@,
            self == ParseError::TooBig ==> r@ == "error-estimate-too-big"@,
    {
        match self {
            ParseError::Unreadable => "error-estimate-unreadable",
            ParseError::NoData => "error-estimate-no-data",
            ParseError::TooBig => "error-estimate-too-big",
        }
    }

    /// short name for a metric label (labels do not take long keys)
    pub fn reason(self) -> (r: &'static str)
        ensures
            self == ParseError::Unreadable ==> r@ == "unreadable"@,
            self == ParseError::NoData ==> r@ == "no_data"@,
            self == ParseError::TooBig ==> r@ == "too_big"@,
    {
        match self {
            ParseError::Unreadable => "unreadable",
            ParseError::NoData => "no_data",
            ParseError::TooBig => "too_big",
        }
    }
}

/// Caps on unpacking: xlsx is a zip, and five megabytes of file unfold into
/// gigabytes when a sheet of a million rows lies inside.
pub const MAX_SHEETS: usize = 20;
pub const MAX_ROWS_PER_SHEET: usize = 20_000;
pub const MAX_COLUMNS: usize = 100;

/// An estimate has no more lines than this; the tail is dropped so as not
/// to flood the database.
pub const MAX_LINES: usize = 5_000;

pub open spec fn opt_line<N>(o: Option<LineModel<N>>) -> Seq<LineModel<N>> {
    match o {
        Some(l) => seq![l],
        None => Seq::<LineModel<N>>::empty(),
    }
}

pub open spec fn rows_of<N>(rows: Seq<Vec<Cell<N>>>) -> Seq<Seq<Cell<N>>> {
    rows.map_values(|row: Vec<Cell<N>>| row@)
}

/// The line row `index` of a sheet gives: the header row itself gives none,
/// rows above it give their raw text, the others are parsed by the columns.
pub open spec fn row_line<N>(
    name: Seq<char>,
    rows: Seq<Seq<Cell<N>>>,
    header: Option<Columns>,
    index: int,
) -> Option<LineModel<N>> {
    match header {
        Some(c) => if index == c.header_row {
            None
        } else if index < c.header_row {
            raw_line_of(name, rows[index])
        } else {
            line_of(name, rows[index], Some(c))
        },
        None => line_of(name, rows[index], None),
    }
}

/// The lines of the first `end` rows of a sheet.
pub open spec fn sheet_lines<N>(
    name: Seq<char>,
    rows: Seq<Seq<Cell<N>>>,
    header: Option<Columns>,
    end: int,
) -> Seq<LineModel<N>>
    decreases end,
{
    if end <= 0 {
        Seq::<LineModel<N>>::empty()
    } else {
        sheet_lines(name, rows, header, end - 1) + opt_line(row_line(name, rows, header, end - 1))
    }
}

/// The lines of a whole sheet.
pub open spec fn lines_of_sheet<N>(sheet: Sheet<N>) -> Seq<LineModel<N>> {
    let rows = rows_of(sheet.rows@);
    sheet_lines(sheet.name@, rows, header_at(rows), rows.len() as int)
}

/// The lines of the first `end` sheets.
pub open spec fn book_lines<N>(sheets: Seq<Sheet<N>>, end: int) -> Seq<LineModel<N>>
    decreases end,
{
    if end <= 0 {
        Seq::<LineModel<N>>::empty()
    } else {
        book_lines(sheets, end - 1) + lines_of_sheet(sheets[end - 1])
    }
}

pub open spec fn take_at_most<A>(s: Seq<A>, n: int) -> Seq<A> {
    if s.len() <= n {
        s
    } else {
        s.take(n)
    }
}

/// What parsing a book gives: its lines, at most `MAX_LINES` of them; a book
/// without a single line is an error, not an empty estimate.
pub open spec fn parse_result<N>(sheets: Seq<Sheet<N>>) -> Result<Seq<LineModel<N>>, ParseError> {
    let lines = take_at_most(book_lines(sheets, sheets.len() as int), MAX_LINES as int);
    if lines.len() == 0 {
        Err(ParseError::NoData)
    } else {
        Ok(lines)
    }
}

pub open spec fn models<N>(v: Seq<ParsedLine<N>>) -> Seq<LineModel<N>> {
    v.map_values(|l: ParsedLine<N>| l.model())
}

pub proof fn lemma_sheet_prefix<N>(
    name: Seq<char>,
    rows: Seq<Seq<Cell<N>>>,
    header: Option<Columns>,
    a: int,
    b: int,
)
    requires
        0 <= a <= b,
    ensures
        sheet_lines(name, rows, header, a).len() <= sheet_lines(name, rows, header, b).len(),
        sheet_lines(name, rows, header, b).take(sheet_lines(name, rows, header, a).len() as int)
            == sheet_lines(name, rows, header, a),
    decreases b - a,
{
    if a < b {
        lemma_sheet_prefix(name, rows, header, a, b - 1);
        let x = sheet_lines(name, rows, header, a);
        let y = sheet_lines(name, rows, header, b - 1);
        let z = sheet_lines(name, rows, header, b);
        assert(z.take(x.len() as int) =~= y.take(x.len() as int));
    } else {
        let x = sheet_lines(name, rows, header, a);
        assert(x.take(x.len() as int) =~= x);
    }
}

proof fn lemma_book_prefix<N>(sheets: Seq<Sheet<N>>, a: int, b: int)
    requires
        0 <= a <= b,
    ensures
        book_lines(sheets, a).len() <= book_lines(sheets, b).len(),
        book_lines(sheets, b).take(book_lines(sheets, a).len() as int) == book_lines(sheets, a),
    decreases b - a,
{
    if a < b {
        lemma_book_prefix(sheets, a, b - 1);
        let x = book_lines(sheets, a);
        let y = book_lines(sheets, b - 1);
        let z = book_lines(sheets, b);
        assert(z.take(x.len() as int) =~= y.take(x.len() as int));
    } else {
        let x = book_lines(sheets, a);
        assert(x.take(x.len() as int) =~= x);
    }
}

/// `p` is the beginning of `full`, and as long as the cap: then it is what
/// the cap keeps of `full`.
proof fn lemma_capped<N>(p: Seq<LineModel<N>>, full: Seq<LineModel<N>>)
    requires
        p.len() == MAX_LINES,
        p.len() <= full.len(),
        full.take(p.len() as int) == p,
    ensures
        take_at_most(full, MAX_LINES as int) == p,
{
}

/// Parse the sheets of a book into lines.
pub fn parse<N: Copy>(sheets: Vec<Sheet<N>>) -> (r: Result<Vec<ParsedLine<N>>, ParseError>)
    ensures
        r matches Ok(lines) ==> parse_result(sheets@) == Ok::<Seq<LineModel<N>>, ParseError>(
            models(lines@),
        ),
        r matches Err(e) ==> parse_result(sheets@) == Err::<Seq<LineModel<N>>, ParseError>(e),
{
    let mut lines: Vec<ParsedLine<N>> = Vec::new();
    let mut s: usize = 0;
    while s < sheets.len()
        invariant
            s <= sheets@.len(),
            models(lines@) == book_lines(sheets@, s as int),
            lines@.len() <= MAX_LINES,
        decreases sheets@.len() - s,
    {
        let sheet = &sheets[s];
        let ghost rows = rows_of(sheet.rows@);
        let columns = find(sheet.rows.as_slice());
        let mut index: usize = 0;
        while index < sheet.rows.len()
            invariant
                s < sheets@.len(),
                *sheet == sheets@[s as int],
                rows == rows_of(sheet.rows@),
                columns == header_at(rows),
                index <= rows.len(),
                models(lines@) == book_lines(sheets@, s as int) + sheet_lines(
                    sheet.name@,
                    rows,
                    columns,
                    index as int,
                ),
                lines@.len() <= MAX_LINES,
            decreases rows.len() - index,
        {
            if lines.len() >= MAX_LINES {
                proof {
                    lemma_sheet_prefix(sheet.name@, rows, columns, index as int, rows.len() as int);
                    lemma_book_prefix(sheets@, s + 1, sheets@.len() as int);
                    let done = book_lines(sheets@, s as int);
                    let whole = book_lines(sheets@, s + 1);
                    let part = sheet_lines(sheet.name@, rows, columns, index as int);
                    let full = book_lines(sheets@, sheets@.len() as int);
                    assert(whole == done + lines_of_sheet(sheets@[s as int]));
                    assert(whole.take(models(lines@).len() as int) =~= models(lines@));
                    assert(full.take(models(lines@).len() as int) =~= models(lines@));
                    lemma_capped(models(lines@), full);
                }
                return finish(lines);
            }
            let row = sheet.rows[index].as_slice();
            assert(row@ == rows[index as int]);
            let parsed = match &columns {
                Some(c) => {
                    if index == c.header_row {
                        None
                    } else if index < c.header_row {
                        line::raw(sheet.name.as_str(), row)
                    } else {
                        line::parse(sheet.name.as_str(), row, Some(c))
                    }
                },
                None => line::parse(sheet.name.as_str(), row, None),
            };
            assert(match parsed {
                Some(l) => row_line(sheet.name@, rows, columns, index as int) == Some(l.model()),
                None => row_line(sheet.name@, rows, columns, index as int) is None,
            });
            let ghost old_lines = lines@;
            proof {
                let before = sheet_lines(sheet.name@, rows, columns, index as int);
                let after = sheet_lines(sheet.name@, rows, columns, index + 1);
                assert(after == before + opt_line(row_line(sheet.name@, rows, columns, index as int)));
            }
            match parsed {
                Some(line) => {
                    lines.push(line);
                    assert(models(lines@) =~= models(old_lines) + seq![line.model()]);
                },
                None => {},
            }
            assert(models(lines@) =~= book_lines(sheets@, s as int) + sheet_lines(
                sheet.name@,
                rows,
                columns,
                index + 1,
            ));
            index += 1;
        }
        s += 1;
    }
    proof {
        let full = book_lines(sheets@, sheets@.len() as int);
        assert(take_at_most(full, MAX_LINES as int) == full);
    }
    finish(lines)
}

/// An empty list of lines means the book had no data.
pub fn finish<N>(lines: Vec<ParsedLine<N>>) -> (r: Result<Vec<ParsedLine<N>>, ParseError>)
    ensures
        lines@.len() == 0 ==> r == Err::<Vec<ParsedLine<N>>, ParseError>(ParseError::NoData),
        lines@.len() > 0 ==> r == Ok::<Vec<ParsedLine<N>>, ParseError>(lines),
{
    if lines.len() == 0 {
        return Err(ParseError::NoData);
    }
    Ok(lines)
}

} // verus!
