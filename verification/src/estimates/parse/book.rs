//! The limits a book must keep before it is read whole. An xlsx file is a
//! zip: a file of a hundred kilobytes unpacks into a sheet with a cell in
//! its millionth row, and the sheet is held as a dense table up to its last
//! cell. The app walks the cells' coordinates first and asks here, cell by
//! cell, whether to go on; nothing is allocated before the answer.
use vstd::prelude::*;

use super::{ParseError, MAX_COLUMNS, MAX_ROWS_PER_SHEET, MAX_SHEETS};

verus! {

/// Columns are taken with room to spare in the walk over coordinates: in
/// real estimates data runs into the thirtieth column too.
pub const MAX_BOUND_COLUMNS: u32 = 1_000;

/// At most this many cells in one sheet.
pub const MAX_CELLS: usize = 500_000;

/// The next cell of a sheet, at `row` and `column`, after `cells` cells of
/// it were seen: the new count, or the book is too big.
pub fn count_cell(cells: usize, row: u32, column: u32) -> (r: Result<usize, ParseError>)
    ensures
        r is Ok <==> (row < MAX_ROWS_PER_SHEET && column < MAX_BOUND_COLUMNS && cells + 1
            <= MAX_CELLS),
        r matches Ok(n) ==> n == cells + 1,
        r matches Err(e) ==> e == ParseError::TooBig,
{
    if row as usize >= MAX_ROWS_PER_SHEET || column >= MAX_BOUND_COLUMNS {
        return Err(ParseError::TooBig);
    }
    if cells >= MAX_CELLS {
        return Err(ParseError::TooBig);
    }
    Ok(cells + 1)
}

/// A book with more sheets than `MAX_SHEETS` is too big.
pub fn check_sheet_count(sheets: usize) -> (r: Result<(), ParseError>)
    ensures
        r is Ok <==> sheets <= MAX_SHEETS,
        r matches Err(e) ==> e == ParseError::TooBig,
{
    if sheets > MAX_SHEETS {
        Err(ParseError::TooBig)
    } else {
        Ok(())
    }
}

/// How many columns of a sheet of `rows` × `columns` are read: at most
/// `MAX_COLUMNS`; a sheet with more rows than `MAX_ROWS_PER_SHEET` makes the
/// book too big.
pub fn sheet_width(rows: usize, columns: usize) -> (r: Result<usize, ParseError>)
    ensures
        r is Ok <==> rows <= MAX_ROWS_PER_SHEET,
        r matches Ok(w) ==> w == if columns < MAX_COLUMNS {
            columns
        } else {
            MAX_COLUMNS
        },
        r matches Err(e) ==> e == ParseError::TooBig,
{
    if rows > MAX_ROWS_PER_SHEET {
        return Err(ParseError::TooBig);
    }
    if columns < MAX_COLUMNS {
        Ok(columns)
    } else {
        Ok(MAX_COLUMNS)
    }
}

} // verus!
