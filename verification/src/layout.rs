//! Grid geometry: how many byte cells fit in a row, how many rows a buffer
//! needs, and which byte lies under a screen cell.

use vstd::prelude::*;

verus! {

/// Screen columns taken by the offset label and its separator.
pub const LABEL_WIDTH: usize = 10;

/// Screen column of the first digit of the first cell of a row.
pub const LEFT_MARGIN: usize = 12;

/// Screen columns taken by one byte cell: a space and two digits.
pub const CELL_WIDTH: usize = 3;

/// Screen rows kept free below the grid for the status and message lines.
pub const RESERVED_ROWS: usize = 3;

/// Terminal width assumed when the terminal cannot tell its size.
pub const FALLBACK_WIDTH: u16 = 80;

/// Terminal height assumed when the terminal cannot tell its size.
pub const FALLBACK_HEIGHT: u16 = 80;

/// Byte cells per row in a terminal `width` columns wide: a third of what the
/// label leaves, and never less than one.
pub open spec fn columns_for(width: int) -> int {
    if (width - 10) / 3 >= 1 {
        (width - 10) / 3
    } else {
        1
    }
}

/// Rows needed for `length` bytes at `columns` per row: the quotient rounded
/// up.
pub open spec fn rows_for(length: int, columns: int) -> int {
    (length + columns - 1) / columns
}

/// Grid rows that fit in a terminal `height` rows high.
pub open spec fn visible_for(height: int) -> int {
    if height > 3 {
        height - 3
    } else {
        0
    }
}

/// Index of the cell under screen position (`x`, `y`), counted along the rows
/// from the first cell of the first row.
pub open spec fn cell_index(x: int, y: int, columns: int) -> int {
    (y - 1) * columns + (x - 12) / 3
}

/// The byte under screen position (`x`, `y`): the index of its cell where that
/// is an offset of the buffer, `None` on a padding cell or off the grid.
pub open spec fn offset_at(x: int, y: int, columns: int, length: int) -> Option<int> {
    if x >= 12 && y >= 1 && cell_index(x, y, columns) < length {
        Some(cell_index(x, y, columns))
    } else {
        None
    }
}

/// Row of the cell that holds offset `i`, counted from zero.
pub open spec fn row_of(i: int, columns: int) -> int {
    i / columns
}

/// Column of the cell that holds offset `i`, counted from zero.
pub open spec fn column_of(i: int, columns: int) -> int {
    i % columns
}

/// Screen column of the first digit of the cell in column `column`.
pub open spec fn screen_x_of(column: int) -> int {
    12 + 3 * column
}

/// Screen row of grid row `row` when nothing is scrolled.
pub open spec fn screen_y_of(row: int) -> int {
    row + 1
}

/// The geometry of one session, fixed when it starts.
#[derive(Clone, Copy, Debug, PartialEq, Eq)]
pub struct Layout {
    pub terminal_width: usize,
    pub terminal_height: usize,
    pub buffer_length: usize,
    pub columns_per_row: usize,
    pub total_rows: usize,
    pub visible_rows: usize,
}

impl Layout {
    /// The derived fields are what the formulas give for the terminal size
    /// and the buffer length.
    pub open spec fn wf(&self) -> bool {
        &&& self.terminal_width <= u16::MAX
        &&& self.terminal_height <= u16::MAX
        &&& self.columns_per_row == columns_for(self.terminal_width as int)
        &&& self.total_rows == rows_for(self.buffer_length as int, self.columns_per_row as int)
        &&& self.visible_rows == visible_for(self.terminal_height as int)
    }

    /// The geometry for a terminal `width` columns wide and `height` rows
    /// high, and a buffer of `length` bytes.
    pub open spec fn spec_compute(width: int, height: int, length: int) -> Layout {
        Layout {
            terminal_width: width as usize,
            terminal_height: height as usize,
            buffer_length: length as usize,
            columns_per_row: columns_for(width) as usize,
            total_rows: rows_for(length, columns_for(width)) as usize,
            visible_rows: visible_for(height) as usize,
        }
    }

    /// The geometry for what the terminal reported, with the fallback size
    /// where it reported none.
    pub open spec fn spec_from_terminal(size: Option<(u16, u16)>, length: int) -> Layout {
        match size {
            Some(reported) => Layout::spec_compute(reported.0 as int, reported.1 as int, length),
            None => Layout::spec_compute(FALLBACK_WIDTH as int, FALLBACK_HEIGHT as int, length),
        }
    }

    /// The byte under screen position (`x`, `y`) in this layout.
    pub open spec fn spec_offset_at(&self, x: int, y: int) -> Option<int> {
        offset_at(x, y, self.columns_per_row as int, self.buffer_length as int)
    }

    /// The geometry for a terminal of the given size and a buffer of
    /// `buffer_length` bytes.
    pub fn compute(terminal_width: u16, terminal_height: u16, buffer_length: usize) -> (layout: Layout)
        ensures
            layout == Layout::spec_compute(terminal_width as int, terminal_height as int, buffer_length as int),
            layout.wf(),
    {
        let width: usize = terminal_width as usize;
        let height: usize = terminal_height as usize;
        let fitting: usize = if width >= LABEL_WIDTH { (width - LABEL_WIDTH) / CELL_WIDTH } else { 0 };
        let columns: usize = if fitting >= 1 { fitting } else { 1 };
        let full: usize = buffer_length / columns;
        proof {
            let (n, c) = (buffer_length as int, columns as int);
            vstd::arithmetic::div_mod::lemma_fundamental_div_mod(n, c);
            assert(n % c != 0 ==> n / c < n) by (nonlinear_arith)
                requires
                    n == c * (n / c) + n % c,
                    0 <= n % c < c,
                    n >= 0,
            ;
        }
        let rows: usize = if buffer_length % columns != 0 { full + 1 } else { full };
        let visible: usize = if height > RESERVED_ROWS { height - RESERVED_ROWS } else { 0 };
        proof {
            lemma_rows_for(buffer_length as int, columns as int);
        }
        Layout {
            terminal_width: width,
            terminal_height: height,
            buffer_length,
            columns_per_row: columns,
            total_rows: rows,
            visible_rows: visible,
        }
    }

    /// The geometry for what the terminal reported: its size, or `None` when
    /// it could not tell, for which the fallback size stands in.
    pub fn from_terminal(size: Option<(u16, u16)>, buffer_length: usize) -> (layout: Layout)
        ensures
            layout == Layout::spec_from_terminal(size, buffer_length as int),
            layout.wf(),
    {
        match size {
            Some((width, height)) => Layout::compute(width, height, buffer_length),
            None => Layout::compute(FALLBACK_WIDTH, FALLBACK_HEIGHT, buffer_length),
        }
    }

    /// Row and column, both from zero, of the cell that holds `offset`.
    pub fn locate(&self, offset: usize) -> (cell: (usize, usize))
        requires
            self.wf(),
        ensures
            cell.0 == row_of(offset as int, self.columns_per_row as int),
            cell.1 == column_of(offset as int, self.columns_per_row as int),
    {
        (offset / self.columns_per_row, offset % self.columns_per_row)
    }

    /// The byte under screen position (`x`, `y`), if there is one.
    pub fn offset_at(&self, x: usize, y: usize) -> (offset: Option<usize>)
        requires
            self.wf(),
        ensures
            offset is Some <==> self.spec_offset_at(x as int, y as int) is Some,
            offset matches Some(i) ==> self.spec_offset_at(x as int, y as int) == Some(i as int),
    {
        if x < LEFT_MARGIN || y < 1 {
            return None;
        }
        let columns: usize = self.columns_per_row;
        let row: usize = y - 1;
        let column: usize = (x - LEFT_MARGIN) / CELL_WIDTH;
        let full: usize = self.buffer_length / columns;
        proof {
            lemma_row_start(self.buffer_length as int, columns as int, row as int);
        }
        if row > full {
            return None;
        }
        let start: usize = row * columns;
        if column < self.buffer_length - start {
            Some(start + column)
        } else {
            None
        }
    }
}

/// `rows_for` is the quotient rounded up: one more than the quotient exactly
/// when the division leaves a remainder.
pub proof fn lemma_rows_for(length: int, columns: int)
    requires
        length >= 0,
        columns >= 1,
    ensures
        rows_for(length, columns) == length / columns + (if length % columns != 0 { 1int } else { 0int }),
        rows_for(length, columns) * columns >= length,
        (rows_for(length, columns) - 1) * columns < length || length == 0,
        length == 0 ==> rows_for(length, columns) == 0,
{
    let q = length / columns;
    let r = length % columns;
    vstd::arithmetic::div_mod::lemma_fundamental_div_mod(length, columns);
    if r == 0 {
        assert(length + columns - 1 == q * columns + (columns - 1)) by (nonlinear_arith)
            requires
                length == columns * q + r,
                r == 0,
        ;
        vstd::arithmetic::div_mod::lemma_fundamental_div_mod_converse(
            length + columns - 1, columns, q, columns - 1);
    } else {
        assert(length + columns - 1 == (q + 1) * columns + (r - 1)) by (nonlinear_arith)
            requires
                length == columns * q + r,
        ;
        vstd::arithmetic::div_mod::lemma_fundamental_div_mod_converse(
            length + columns - 1, columns, q + 1, r - 1);
    }
    assert(rows_for(length, columns) * columns >= length) by (nonlinear_arith)
        requires
            length == columns * q + r,
            0 <= r < columns,
            rows_for(length, columns) == q + (if r != 0 { 1int } else { 0int }),
    ;
    assert((rows_for(length, columns) - 1) * columns < length || length == 0) by (nonlinear_arith)
        requires
            length == columns * q + r,
            0 <= r < columns,
            length >= 0,
            rows_for(length, columns) == q + (if r != 0 { 1int } else { 0int }),
    ;
}

/// Where row `row` starts: within the buffer up to the quotient row, beyond it
/// after.
pub proof fn lemma_row_start(length: int, columns: int, row: int)
    requires
        length >= 0,
        columns >= 1,
        row >= 0,
    ensures
        row <= length / columns ==> 0 <= row * columns <= length,
        row > length / columns ==> row * columns > length,
{
    let q = length / columns;
    let r = length % columns;
    vstd::arithmetic::div_mod::lemma_fundamental_div_mod(length, columns);
    assert(row <= q ==> 0 <= row * columns <= length) by (nonlinear_arith)
        requires
            length == columns * q + r,
            0 <= r < columns,
            row >= 0,
    ;
    assert(row > q ==> row * columns > length) by (nonlinear_arith)
        requires
            length == columns * q + r,
            0 <= r < columns,
            row >= 0,
    ;
}

/// Every offset of a buffer lies in one cell of the grid: its row is the
/// quotient by the row width and lies among the rows of the grid, its column
/// is the remainder, and the screen position of that cell maps back to the
/// offset.
pub proof fn lemma_offset_round_trip(length: int, columns: int, i: int)
    requires
        columns >= 1,
        0 <= i < length,
    ensures
        0 <= row_of(i, columns) < rows_for(length, columns),
        0 <= column_of(i, columns) < columns,
        row_of(i, columns) * columns + column_of(i, columns) == i,
        offset_at(screen_x_of(column_of(i, columns)), screen_y_of(row_of(i, columns)), columns, length)
            == Some(i),
{
    let row = i / columns;
    let column = i % columns;
    vstd::arithmetic::div_mod::lemma_fundamental_div_mod(i, columns);
    lemma_rows_for(length, columns);
    assert(row * columns + column == i) by (nonlinear_arith)
        requires
            i == columns * row + column,
    ;
    assert(0 <= row < rows_for(length, columns)) by (nonlinear_arith)
        requires
            i == columns * row + column,
            0 <= column < columns,
            0 <= i < length,
            (rows_for(length, columns) - 1) * columns < length,
            rows_for(length, columns) * columns >= length,
    ;
    assert((screen_x_of(column) - 12) / 3 == column);
}

/// No other cell holds the offset: a row and a column within the row width
/// that add up to offset `i` are the row and the column of `i`.
pub proof fn lemma_cell_of_offset_unique(columns: int, i: int, row: int, column: int)
    requires
        columns >= 1,
        0 <= column < columns,
        row * columns + column == i,
    ensures
        row == row_of(i, columns),
        column == column_of(i, columns),
{
    vstd::arithmetic::div_mod::lemma_fundamental_div_mod_converse(i, columns, row, column);
}

/// A screen position on the grid whose cell holds a byte names the cell of
/// that byte: the row above the screen row, and the column that the screen
/// column falls in.
pub proof fn lemma_position_names_cell(length: int, columns: int, x: int, y: int)
    requires
        columns >= 1,
        (x - 12) / 3 < columns,
        offset_at(x, y, columns, length) is Some,
    ensures
        row_of(offset_at(x, y, columns, length)->0, columns) == y - 1,
        column_of(offset_at(x, y, columns, length)->0, columns) == (x - 12) / 3,
{
    lemma_cell_of_offset_unique(columns, cell_index(x, y, columns), y - 1, (x - 12) / 3);
}

/// A buffer without bytes has no rows, and no screen position maps to a byte.
pub proof fn lemma_empty_buffer(columns: int, x: int, y: int)
    requires
        columns >= 1,
    ensures
        rows_for(0, columns) == 0,
        offset_at(x, y, columns, 0) is None,
{
    lemma_rows_for(0, columns);
    if x >= 12 && y >= 1 {
        assert(cell_index(x, y, columns) >= 0) by (nonlinear_arith)
            requires
                x >= 12,
                y >= 1,
                columns >= 1,
        ;
    }
}

} // verus!
