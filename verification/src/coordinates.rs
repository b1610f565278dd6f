use vstd::prelude::*;

verus! {

/// The failure of a translation: the number names no cell.
#[derive(Clone, Copy, Debug, PartialEq, Eq, Structural)]
pub struct TranslationError;

/// Whether `index` is one of the nine numbers that name a cell.
pub open spec fn is_cell_index(index: int) -> bool {
    1 <= index <= 9
}

/// The column and the row, in that order, of the cell that `index` names. The numbers lie
/// as on a numeric keypad: 7, 8, 9 in the top row, 1, 2, 3 in the bottom row.
pub open spec fn keypad_cell(index: int) -> (int, int) {
    ((index - 1) % 3, 2 - (index - 1) / 3)
}

/// Converts the input number to a tuple of coordinates, the column first and the row
/// second. Returns a `TranslationError` if the number is not between 1 and 9.
pub fn index_to_coordinates(index: usize) -> (result: Result<(usize, usize), TranslationError>)
    ensures
        is_cell_index(index as int) <==> result is Ok,
        result matches Ok(at) ==> (at.0 as int, at.1 as int) == keypad_cell(index as int) && at.0
            < 3 && at.1 < 3,
{
    if index >= 7 && index <= 9 {
        return Ok((index - 7, 0));
    } else if index >= 4 && index <= 6 {
        return Ok((index - 4, 1));
    } else if index >= 1 && index <= 3 {
        return Ok((index - 1, 2));
    } else {
        return Err(TranslationError);
    }
}

} // verus!
