//! The frame: what one screen shows of a session, as values. Each cell
//! carries the class it is to be drawn in; how a class looks on a terminal is
//! decided where the frame is painted.

use vstd::prelude::*;
use vstd::string::StringExecFns;
use crate::buffer::{BufferView, ByteBuffer};
use crate::cursor::CursorModel;
use crate::history::{log_names, EditHistory};
use crate::layout::{cell_index, lemma_cell_of_offset_unique, lemma_row_start, lemma_rows_for, Layout,
    LEFT_MARGIN, CELL_WIDTH};

verus! {

/// The class a cell is drawn in.
#[derive(Clone, Copy, Debug, PartialEq, Eq)]
pub enum Highlight {
    /// The active cell, over a byte.
    Cursor,
    /// The active cell, past the end of the buffer.
    CursorPadding,
    /// A cell past the end of the buffer.
    Padding,
    /// A byte that an edit of this session has written.
    Modified,
    /// Any other byte.
    Plain,
}

/// One cell of the grid: its class, and its byte unless it is padding.
#[derive(Clone, Copy, Debug, PartialEq, Eq)]
pub struct Cell {
    pub highlight: Highlight,
    pub byte: Option<u8>,
}

/// One row of the grid: the offset of its first cell, and its cells.
#[derive(Debug, PartialEq, Eq)]
pub struct Row {
    pub offset: usize,
    pub cells: Vec<Cell>,
}

/// The status line, as values.
#[derive(Debug, PartialEq, Eq)]
pub struct StatusLine {
    /// The offset under the cursor, `None` on a padding cell.
    pub byte_index: Option<usize>,
    /// The column of the active cell, counted from one.
    pub column: usize,
    /// The row of the active cell, counted from one.
    pub row: usize,
    pub total_rows: usize,
    pub display_name: String,
    pub read_only: bool,
}

/// One screen: the visible rows of the grid, and the status line.
#[derive(Debug, PartialEq, Eq)]
pub struct Frame {
    pub rows: Vec<Row>,
    pub status: StatusLine,
}

/// A `Row` as plain mathematical values.
pub struct RowView {
    pub offset: int,
    pub cells: Seq<Cell>,
}

/// A `StatusLine` as plain mathematical values.
pub struct StatusView {
    pub byte_index: Option<usize>,
    pub column: int,
    pub row: int,
    pub total_rows: int,
    pub display_name: Seq<char>,
    pub read_only: bool,
}

/// A `Frame` as plain mathematical values.
pub struct FrameView {
    pub rows: Seq<RowView>,
    pub status: StatusView,
}

impl View for Row {
    type V = RowView;

    open spec fn view(&self) -> RowView {
        RowView { offset: self.offset as int, cells: self.cells@ }
    }
}

impl View for StatusLine {
    type V = StatusView;

    open spec fn view(&self) -> StatusView {
        StatusView {
            byte_index: self.byte_index,
            column: self.column as int,
            row: self.row as int,
            total_rows: self.total_rows as int,
            display_name: self.display_name@,
            read_only: self.read_only,
        }
    }
}

/// The rows of a frame as plain mathematical values.
pub open spec fn rows_view(rows: Seq<Row>) -> Seq<RowView> {
    Seq::new(rows.len(), |r: int| rows[r]@)
}

impl View for Frame {
    type V = FrameView;

    open spec fn view(&self) -> FrameView {
        FrameView { rows: rows_view(self.rows@), status: self.status@ }
    }
}

/// The class of the cell with index `index`, where the buffer holds `length`
/// bytes, the active cell has index `active`, and `log` is the undo log.
pub open spec fn highlight_of(index: int, length: int, active: int, log: Seq<(usize, u8)>) -> Highlight {
    if index >= length {
        if index == active {
            Highlight::CursorPadding
        } else {
            Highlight::Padding
        }
    } else if index == active {
        Highlight::Cursor
    } else if log_names(log, index) {
        Highlight::Modified
    } else {
        Highlight::Plain
    }
}

/// The cell with index `index`.
pub open spec fn cell_model(working: Seq<u8>, log: Seq<(usize, u8)>, active: int, index: int) -> Cell {
    Cell {
        highlight: highlight_of(index, working.len() as int, active, log),
        byte: if 0 <= index < working.len() { Some(working[index]) } else { None },
    }
}

/// Row `row` of the grid: `columns` cells from index `row * columns` on.
pub open spec fn row_model(
    working: Seq<u8>,
    log: Seq<(usize, u8)>,
    active: int,
    columns: int,
    row: int,
) -> RowView {
    RowView {
        offset: row * columns,
        cells: Seq::new(columns as nat, |k: int| cell_model(working, log, active, row * columns + k)),
    }
}

/// The index of the active cell.
pub open spec fn active_index(layout: &Layout, cursor: &CursorModel) -> int {
    cell_index(cursor.screen_x as int, cursor.screen_y as int, layout.columns_per_row as int)
}

/// The row after the last visible one: the window's end, or the grid's end
/// where that comes first.
pub open spec fn window_end(layout: &Layout, cursor: &CursorModel) -> int {
    if cursor.scroll_top + layout.visible_rows < layout.total_rows {
        cursor.scroll_top + layout.visible_rows
    } else {
        layout.total_rows as int
    }
}

/// The status line of a session.
pub open spec fn status_model(buffer: BufferView, layout: &Layout, cursor: &CursorModel) -> StatusView {
    StatusView {
        byte_index: cursor.byte_index,
        column: (cursor.screen_x - 9) / 3,
        row: cursor.screen_y as int,
        total_rows: layout.total_rows as int,
        display_name: buffer.display_name,
        read_only: buffer.read_only,
    }
}

/// The frame of a session: the rows from the first visible one up to the end
/// of the window, each row in full, and the status line.
pub open spec fn frame_model(
    buffer: BufferView,
    log: Seq<(usize, u8)>,
    layout: &Layout,
    cursor: &CursorModel,
) -> FrameView {
    FrameView {
        rows: Seq::new(
            (window_end(layout, cursor) - cursor.scroll_top) as nat,
            |r: int|
                row_model(
                    buffer.working,
                    log,
                    active_index(layout, cursor),
                    layout.columns_per_row as int,
                    cursor.scroll_top + r,
                ),
        ),
        status: status_model(buffer, layout, cursor),
    }
}

/// The active cell lies within its row: the column of a cursor within its
/// bounds is below the row width.
pub proof fn lemma_cursor_column(layout: &Layout, cursor: &CursorModel)
    requires
        layout.wf(),
        cursor.wf(layout),
    ensures
        0 <= cursor.column() < layout.columns_per_row,
        active_index(layout, cursor) == (cursor.screen_y - 1) * layout.columns_per_row + cursor.column(),
{
}

/// The cell in column `column` of row `row`.
pub fn cell_in(
    buffer: &ByteBuffer,
    history: &EditHistory,
    layout: &Layout,
    cursor: &CursorModel,
    row: usize,
    column: usize,
) -> (cell: Cell)
    requires
        layout.wf(),
        cursor.wf(layout),
        layout.buffer_length == buffer@.working.len(),
        column < layout.columns_per_row,
    ensures
        cell == cell_model(
            buffer@.working,
            history@,
            active_index(layout, cursor),
            row * layout.columns_per_row + column,
        ),
{
    let columns: usize = layout.columns_per_row;
    let length: usize = buffer.len();
    let active: bool = row == cursor.screen_y - 1 && column == (cursor.screen_x - LEFT_MARGIN) / CELL_WIDTH;
    proof {
        lemma_cursor_column(layout, cursor);
        lemma_row_start(length as int, columns as int, row as int);
        let index = row * columns + column;
        if index == active_index(layout, cursor) {
            lemma_cell_of_offset_unique(columns as int, index, row as int, column as int);
            lemma_cell_of_offset_unique(columns as int, index, cursor.screen_y - 1, cursor.column());
        }
    }
    if row <= length / columns && column < length - row * columns {
        let index: usize = row * columns + column;
        let highlight: Highlight = if active {
            Highlight::Cursor
        } else if history.names(index) {
            Highlight::Modified
        } else {
            Highlight::Plain
        };
        Cell { highlight, byte: buffer.get(index) }
    } else {
        let highlight: Highlight = if active { Highlight::CursorPadding } else { Highlight::Padding };
        Cell { highlight, byte: None }
    }
}

/// The cell with index `index`.
pub fn cell_at(
    buffer: &ByteBuffer,
    history: &EditHistory,
    layout: &Layout,
    cursor: &CursorModel,
    index: usize,
) -> (cell: Cell)
    requires
        layout.wf(),
        cursor.wf(layout),
        layout.buffer_length == buffer@.working.len(),
    ensures
        cell == cell_model(buffer@.working, history@, active_index(layout, cursor), index as int),
{
    let columns: usize = layout.columns_per_row;
    proof {
        vstd::arithmetic::div_mod::lemma_fundamental_div_mod(index as int, columns as int);
        assert((index / columns) * columns + index % columns == index) by (nonlinear_arith)
            requires
                index == columns * (index / columns) + index % columns,
        ;
    }
    cell_in(buffer, history, layout, cursor, index / columns, index % columns)
}

/// Row `row` of the grid.
pub fn render_row(
    buffer: &ByteBuffer,
    history: &EditHistory,
    layout: &Layout,
    cursor: &CursorModel,
    row: usize,
) -> (line: Row)
    requires
        layout.wf(),
        cursor.wf(layout),
        layout.buffer_length == buffer@.working.len(),
        row < layout.total_rows,
    ensures
        line@ == row_model(
            buffer@.working,
            history@,
            active_index(layout, cursor),
            layout.columns_per_row as int,
            row as int,
        ),
{
    let columns: usize = layout.columns_per_row;
    proof {
        lemma_rows_for(layout.buffer_length as int, columns as int);
        assert(row * columns < layout.buffer_length) by (nonlinear_arith)
            requires
                row < layout.total_rows,
                (layout.total_rows - 1) * columns < layout.buffer_length,
                columns >= 1,
        ;
    }
    let mut cells: Vec<Cell> = Vec::with_capacity(columns);
    let mut column: usize = 0;
    while column < columns
        invariant
            column <= columns,
            columns == layout.columns_per_row,
            layout.wf(),
            cursor.wf(layout),
            layout.buffer_length == buffer@.working.len(),
            cells@ == Seq::new(
                column as nat,
                |k: int|
                    cell_model(buffer@.working, history@, active_index(layout, cursor), row * columns + k),
            ),
        decreases columns - column,
    {
        let cell: Cell = cell_in(buffer, history, layout, cursor, row, column);
        cells.push(cell);
        column = column + 1;
    }
    Row { offset: row * columns, cells }
}

/// The frame of a session. Nothing is changed, so the same state gives the
/// same frame.
pub fn render(buffer: &ByteBuffer, layout: &Layout, cursor: &CursorModel, history: &EditHistory) -> (frame:
    Frame)
    requires
        layout.wf(),
        cursor.wf(layout),
        layout.buffer_length == buffer@.working.len(),
    ensures
        frame@ == frame_model(buffer@, history@, layout, cursor),
{
    let top: usize = cursor.scroll_top;
    let end: usize = if top < layout.total_rows && layout.visible_rows < layout.total_rows - top {
        top + layout.visible_rows
    } else {
        layout.total_rows
    };
    let mut rows: Vec<Row> = Vec::new();
    let mut row: usize = top;
    while row < end
        invariant
            top <= row <= end <= layout.total_rows,
            top == cursor.scroll_top,
            layout.wf(),
            cursor.wf(layout),
            layout.buffer_length == buffer@.working.len(),
            rows@.len() == row - top,
            forall|r: int|
                0 <= r < row - top ==> (#[trigger] rows@[r])@ == row_model(
                    buffer@.working,
                    history@,
                    active_index(layout, cursor),
                    layout.columns_per_row as int,
                    top + r,
                ),
        decreases end - row,
    {
        let line: Row = render_row(buffer, history, layout, cursor, row);
        rows.push(line);
        row = row + 1;
    }
    let status = StatusLine {
        byte_index: cursor.byte_index,
        column: (cursor.screen_x - 9) / CELL_WIDTH,
        row: cursor.screen_y,
        total_rows: layout.total_rows,
        display_name: String::from_str(buffer.display_name()),
        read_only: buffer.is_read_only(),
    };
    let frame = Frame { rows, status };
    assert(frame@.rows =~= frame_model(buffer@, history@, layout, cursor).rows);
    frame
}

/// The frame depends on nothing but what it shows: two sessions with the
/// same working copy, name, flag, log offsets, geometry and cursor have the
/// same frame, whatever their baselines and the bytes in their logs.
pub proof fn lemma_frame_is_projection(
    first: BufferView,
    second: BufferView,
    first_log: Seq<(usize, u8)>,
    second_log: Seq<(usize, u8)>,
    layout: &Layout,
    cursor: &CursorModel,
)
    requires
        first.working == second.working,
        first.display_name == second.display_name,
        first.read_only == second.read_only,
        first_log.len() == second_log.len(),
        forall|k: int| 0 <= k < first_log.len() ==> first_log[k].0 == second_log[k].0,
    ensures
        frame_model(first, first_log, layout, cursor) == frame_model(second, second_log, layout, cursor),
{
    let active = active_index(layout, cursor);
    let columns = layout.columns_per_row as int;
    assert forall|index: int|
        cell_model(first.working, first_log, active, index) == cell_model(
            second.working,
            second_log,
            active,
            index,
        ) by {
        if log_names(first_log, index) {
            let k = choose|k: int| 0 <= k < first_log.len() && (#[trigger] first_log[k]).0 == index;
            assert(second_log[k].0 == index);
        }
        if log_names(second_log, index) {
            let k = choose|k: int| 0 <= k < second_log.len() && (#[trigger] second_log[k]).0 == index;
            assert(first_log[k].0 == index);
        }
    }
    assert forall|row: int|
        row_model(first.working, first_log, active, columns, row) == row_model(
            second.working,
            second_log,
            active,
            columns,
            row,
        ) by {
        assert(row_model(first.working, first_log, active, columns, row).cells =~= row_model(
            second.working,
            second_log,
            active,
            columns,
            row,
        ).cells);
    }
    assert(frame_model(first, first_log, layout, cursor).rows =~= frame_model(
        second,
        second_log,
        layout,
        cursor,
    ).rows);
}

} // verus!
