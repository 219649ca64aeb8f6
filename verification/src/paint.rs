//! Painting: the text that shows a frame on a terminal.

use vstd::prelude::*;
use vstd::string::StringExecFns;
use crate::frame::{rows_view, Cell, Highlight, Row, RowView, StatusLine, StatusView};
use crate::layout::{lemma_rows_for, rows_for, Layout};
use crate::term::{Palette, PaletteView};
use crate::text::{dec_text, hex_text, push_dec, push_hex};

verus! {

/// The sequences that switch a class on.
pub open spec fn style_on(highlight: Highlight, palette: PaletteView) -> Seq<char> {
    match highlight {
        Highlight::Cursor => palette.bg_black + palette.fg_white,
        Highlight::CursorPadding => palette.bg_red + palette.fg_white,
        Highlight::Padding => palette.fg_red,
        Highlight::Modified => palette.bold,
        Highlight::Plain => Seq::empty(),
    }
}

/// The sequence that switches a class off again.
pub open spec fn style_off(highlight: Highlight, palette: PaletteView) -> Seq<char> {
    match highlight {
        Highlight::Plain => Seq::empty(),
        _ => palette.reset,
    }
}

/// What a cell says: the two upper-case hexadecimal digits of its byte, or two
/// dashes on padding.
pub open spec fn cell_content(byte: Option<u8>) -> Seq<char> {
    match byte {
        Some(value) => hex_text(value as nat, 2),
        None => "--"@,
    }
}

/// One cell on the screen: a space, then the content in the cell's class.
pub open spec fn cell_text(cell: Cell, palette: PaletteView) -> Seq<char> {
    " "@ + style_on(cell.highlight, palette) + cell_content(cell.byte) + style_off(
        cell.highlight,
        palette,
    )
}

/// The cells of a row, one after the other.
pub open spec fn cells_text(cells: Seq<Cell>, palette: PaletteView) -> Seq<char>
    decreases cells.len(),
{
    if cells.len() == 0 {
        Seq::empty()
    } else {
        cells_text(cells.drop_last(), palette) + cell_text(cells.last(), palette)
    }
}

/// One row on the screen: the offset of its first cell in at least eight
/// hexadecimal digits, a separator, and its cells.
pub open spec fn row_text(row: RowView, palette: PaletteView) -> Seq<char> {
    hex_text(row.offset as nat, 8) + " |"@ + cells_text(row.cells, palette)
}

/// The rows of a grid, each followed by `line_end`.
pub open spec fn grid_text(rows: Seq<RowView>, palette: PaletteView, line_end: Seq<char>) -> Seq<char>
    decreases rows.len(),
{
    if rows.len() == 0 {
        Seq::empty()
    } else {
        grid_text(rows.drop_last(), palette, line_end) + row_text(rows.last(), palette) + line_end
    }
}

/// The offset part of the status line: at least eight hexadecimal digits, or
/// eight dashes where the cursor is on no byte.
pub open spec fn offset_text(byte_index: Option<usize>) -> Seq<char> {
    match byte_index {
        Some(offset) => hex_text(offset as nat, 8),
        None => "--------"@,
    }
}

/// The read-only marker of the status line.
pub open spec fn marker_text(read_only: bool) -> Seq<char> {
    if read_only {
        "(read-only)"@
    } else {
        Seq::empty()
    }
}

/// The status line on the screen, in bold red: the offset under the cursor,
/// the column and row of the active cell, the number of rows, the name of the
/// buffer, and the read-only marker.
pub open spec fn status_text(status: StatusView, palette: PaletteView) -> Seq<char> {
    palette.fg_red + palette.bold + offset_text(status.byte_index) + " ("@ + dec_text(
        status.column as nat,
    ) + ","@ + dec_text(status.row as nat) + ") line-count="@ + dec_text(status.total_rows as nat)
        + " Filename: "@ + status.display_name + " "@ + marker_text(status.read_only) + palette.reset
}

/// One cell of a dump: a space and the two digits of the byte at `index`, or
/// two dashes past the end.
pub open spec fn dump_cell_text(bytes: Seq<u8>, index: int) -> Seq<char> {
    " "@ + cell_content(if 0 <= index < bytes.len() { Some(bytes[index]) } else { None })
}

/// The first `count` cells of row `row` of a dump.
pub open spec fn dump_cells_text(bytes: Seq<u8>, columns: int, row: int, count: nat) -> Seq<char>
    decreases count,
{
    if count == 0 {
        Seq::empty()
    } else {
        dump_cells_text(bytes, columns, row, (count - 1) as nat) + dump_cell_text(
            bytes,
            row * columns + count - 1,
        )
    }
}

/// The first `count` rows of a dump: per row the offset label, the
/// separator, all cells of the row and a line feed.
pub open spec fn dump_rows_text(bytes: Seq<u8>, columns: int, count: nat) -> Seq<char>
    decreases count,
{
    if count == 0 {
        Seq::empty()
    } else {
        dump_rows_text(bytes, columns, (count - 1) as nat) + hex_text(((count - 1) * columns) as nat, 8)
            + " |"@ + dump_cells_text(bytes, columns, count - 1, columns as nat) + "\n"@
    }
}

/// A whole buffer as text: every row of the grid, then one more line feed.
pub open spec fn dump_text(bytes: Seq<u8>, columns: int) -> Seq<char> {
    dump_rows_text(bytes, columns, rows_for(bytes.len() as int, columns) as nat) + "\n"@
}

/// Appends one cell.
pub fn push_cell(out: &mut String, cell: &Cell, palette: &Palette)
    ensures
        final(out)@ == old(out)@ + cell_text(*cell, palette@),
{
    out.append(" ");
    match cell.highlight {
        Highlight::Cursor => {
            out.append(palette.bg_black.as_str());
            out.append(palette.fg_white.as_str());
        },
        Highlight::CursorPadding => {
            out.append(palette.bg_red.as_str());
            out.append(palette.fg_white.as_str());
        },
        Highlight::Padding => {
            out.append(palette.fg_red.as_str());
        },
        Highlight::Modified => {
            out.append(palette.bold.as_str());
        },
        Highlight::Plain => {},
    }
    match cell.byte {
        Some(value) => {
            push_hex(out, value as usize, 2);
        },
        None => {
            out.append("--");
        },
    }
    match cell.highlight {
        Highlight::Plain => {},
        _ => {
            out.append(palette.reset.as_str());
        },
    }
    assert(out@ =~= old(out)@ + cell_text(*cell, palette@));
}

/// Appends one row, without a line end.
pub fn push_row(out: &mut String, row: &Row, palette: &Palette)
    ensures
        final(out)@ == old(out)@ + row_text(row@, palette@),
{
    push_hex(out, row.offset, 8);
    out.append(" |");
    let ghost start = out@;
    let mut i: usize = 0;
    while i < row.cells.len()
        invariant
            i <= row.cells.len(),
            out@ == start + cells_text(row.cells@.subrange(0, i as int), palette@),
        decreases row.cells.len() - i,
    {
        let ghost before = out@;
        push_cell(out, &row.cells[i], palette);
        proof {
            let next = row.cells@.subrange(0, i + 1);
            assert(next.drop_last() == row.cells@.subrange(0, i as int));
            assert(out@ =~= start + cells_text(next, palette@));
        }
        i = i + 1;
    }
    proof {
        assert(row.cells@.subrange(0, row.cells@.len() as int) == row.cells@);
        assert(out@ =~= old(out)@ + row_text(row@, palette@));
    }
}

/// The rows of a grid, each followed by `line_end`.
pub fn paint_grid(rows: &Vec<Row>, palette: &Palette, line_end: &str) -> (text: String)
    ensures
        text@ == grid_text(rows_view(rows@), palette@, line_end@),
{
    let mut out: String = String::new();
    let mut i: usize = 0;
    while i < rows.len()
        invariant
            i <= rows.len(),
            out@ == grid_text(rows_view(rows@).subrange(0, i as int), palette@, line_end@),
        decreases rows.len() - i,
    {
        push_row(&mut out, &rows[i], palette);
        out.append(line_end);
        proof {
            let next = rows_view(rows@).subrange(0, i + 1);
            assert(next.drop_last() == rows_view(rows@).subrange(0, i as int));
            assert(next.last() == rows@[i as int]@);
        }
        i = i + 1;
    }
    assert(rows_view(rows@).subrange(0, rows@.len() as int) == rows_view(rows@));
    out
}

/// The status line.
pub fn paint_status(status: &StatusLine, palette: &Palette) -> (line: String)
    ensures
        line@ == status_text(status@, palette@),
{
    let mut out: String = palette.fg_red.clone();
    out.append(palette.bold.as_str());
    match status.byte_index {
        Some(offset) => {
            push_hex(&mut out, offset, 8);
        },
        None => {
            out.append("--------");
        },
    }
    out.append(" (");
    push_dec(&mut out, status.column);
    out.append(",");
    push_dec(&mut out, status.row);
    out.append(") line-count=");
    push_dec(&mut out, status.total_rows);
    out.append(" Filename: ");
    out.append(status.display_name.as_str());
    out.append(" ");
    if status.read_only {
        out.append("(read-only)");
    } else {
        assert(out@ + marker_text(false) =~= out@);
    }
    out.append(palette.reset.as_str());
    out
}

/// A whole buffer as text, at the row width of `layout`: per row the offset
/// label and every cell, padding as two dashes, without any styling.
pub fn dump(bytes: &Vec<u8>, layout: &Layout) -> (text: String)
    requires
        layout.wf(),
        layout.buffer_length == bytes@.len(),
    ensures
        text@ == dump_text(bytes@, layout.columns_per_row as int),
{
    let columns: usize = layout.columns_per_row;
    let length: usize = bytes.len();
    let mut out: String = String::new();
    let mut row: usize = 0;
    proof {
        lemma_rows_for(length as int, columns as int);
    }
    while row < layout.total_rows
        invariant
            row <= layout.total_rows,
            layout.wf(),
            columns == layout.columns_per_row,
            length == bytes@.len(),
            layout.buffer_length == length,
            layout.total_rows > 0 ==> (layout.total_rows - 1) * columns < length,
            out@ == dump_rows_text(bytes@, columns as int, row as nat),
        decreases layout.total_rows - row,
    {
        proof {
            assert(row * columns < length) by (nonlinear_arith)
                requires
                    row < layout.total_rows,
                    (layout.total_rows - 1) * columns < length,
                    columns >= 1,
            ;
        }
        let start: usize = row * columns;
        push_hex(&mut out, start, 8);
        out.append(" |");
        let ghost label = out@;
        let mut column: usize = 0;
        while column < columns
            invariant
                column <= columns,
                start == row * columns,
                start < length,
                length == bytes@.len(),
                out@ == label + dump_cells_text(bytes@, columns as int, row as int, column as nat),
            decreases columns - column,
        {
            out.append(" ");
            if column < length - start {
                push_hex(&mut out, bytes[start + column] as usize, 2);
            } else {
                out.append("--");
            }
            proof {
                assert(out@ =~= label + dump_cells_text(
                    bytes@,
                    columns as int,
                    row as int,
                    (column + 1) as nat,
                ));
            }
            column = column + 1;
        }
        out.append("\n");
        proof {
            assert(out@ =~= dump_rows_text(bytes@, columns as int, (row + 1) as nat));
        }
        row = row + 1;
    }
    out.append("\n");
    out
}

} // verus!
