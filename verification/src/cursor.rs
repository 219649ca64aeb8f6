//! The cursor: the active screen cell, the byte under it, and the first row
//! of the scroll window.

use vstd::prelude::*;
use crate::layout::{Layout, LEFT_MARGIN, CELL_WIDTH};

verus! {

/// The active cell and the scroll window.
///
/// `screen_x` is the screen column of the first digit of the active cell,
/// `screen_y` its row in the grid counted from one, `scroll_top` the first
/// visible row counted from zero, and `byte_index` the offset under the
/// cursor, or `None` on a padding cell.
#[derive(Clone, Copy, Debug, PartialEq, Eq)]
pub struct CursorModel {
    pub screen_x: usize,
    pub screen_y: usize,
    pub scroll_top: usize,
    pub byte_index: Option<usize>,
}

/// One step of the cursor.
#[derive(Clone, Copy, Debug, PartialEq, Eq)]
pub enum Move {
    Left,
    Right,
    Up,
    Down,
}

/// The rightmost screen column the cursor may stand on: two short of the
/// terminal width, and never left of the first cell.
pub open spec fn max_x(layout: &Layout) -> int {
    if layout.terminal_width - 2 > 12 {
        layout.terminal_width - 2
    } else {
        12
    }
}

/// The last row the cursor may stand on: the last row of the grid, and row one
/// where the grid has none.
pub open spec fn max_y(layout: &Layout) -> int {
    if layout.total_rows > 1 {
        layout.total_rows as int
    } else {
        1
    }
}

/// The largest first visible row: what the window leaves of the grid, zero
/// where the whole grid fits.
pub open spec fn max_scroll(layout: &Layout) -> int {
    if layout.total_rows > layout.visible_rows {
        layout.total_rows - layout.visible_rows
    } else {
        0
    }
}

/// The offset under screen position (`x`, `y`) as the cursor holds it.
pub open spec fn index_at(layout: &Layout, x: int, y: int) -> Option<usize> {
    match layout.spec_offset_at(x, y) {
        Some(i) => Some(i as usize),
        None => None,
    }
}

/// The cursor at (`x`, `y`) with the window at `scroll_top`, and the byte
/// that the position maps to.
pub open spec fn placed(layout: &Layout, x: int, y: int, scroll_top: int) -> CursorModel {
    CursorModel {
        screen_x: x as usize,
        screen_y: y as usize,
        scroll_top: scroll_top as usize,
        byte_index: index_at(layout, x, y),
    }
}

impl CursorModel {
    /// The cursor stands on a cell within its bounds, the window starts
    /// within its bounds, and `byte_index` is what the position maps to.
    pub open spec fn wf(&self, layout: &Layout) -> bool {
        &&& 12 <= self.screen_x <= max_x(layout)
        &&& (self.screen_x - 12) % 3 == 0
        &&& 1 <= self.screen_y <= max_y(layout)
        &&& self.scroll_top <= max_scroll(layout)
        &&& self.byte_index == index_at(layout, self.screen_x as int, self.screen_y as int)
    }

    /// The active row lies inside the scroll window.
    pub open spec fn row_visible(&self, layout: &Layout) -> bool {
        self.scroll_top <= self.screen_y - 1 < self.scroll_top + layout.visible_rows
    }

    /// Column of the active cell, counted from zero.
    pub open spec fn column(&self) -> int {
        (self.screen_x - 12) / 3
    }

    /// One cell to the left, unless that leaves the grid; the window stays.
    pub open spec fn moved_left(self, layout: &Layout) -> CursorModel {
        let x = if self.screen_x - 3 >= 12 { self.screen_x - 3 } else { self.screen_x as int };
        placed(layout, x, self.screen_y as int, self.scroll_top as int)
    }

    /// One cell to the right, unless that passes the rightmost column; the
    /// window stays.
    pub open spec fn moved_right(self, layout: &Layout) -> CursorModel {
        let x = if self.screen_x + 3 <= max_x(layout) { self.screen_x + 3 } else { self.screen_x as int };
        placed(layout, x, self.screen_y as int, self.scroll_top as int)
    }

    /// One row up, unless the cursor is on the first row; the window then
    /// starts at the active row if that row lies above it.
    pub open spec fn moved_up(self, layout: &Layout) -> CursorModel {
        let y = if self.screen_y > 1 { self.screen_y - 1 } else { self.screen_y as int };
        let top = if y < self.scroll_top + 1 { y - 1 } else { self.scroll_top as int };
        placed(layout, self.screen_x as int, y, top)
    }

    /// One row down, unless the cursor is on the last row; the window then
    /// moves down one row if the active row lies below it and the window
    /// has not reached the end of the grid.
    pub open spec fn moved_down(self, layout: &Layout) -> CursorModel {
        let y = if self.screen_y < layout.total_rows { self.screen_y + 1 } else { self.screen_y as int };
        let top = if y > self.scroll_top + layout.visible_rows
            && self.scroll_top + layout.visible_rows < layout.total_rows {
            self.scroll_top + 1
        } else {
            self.scroll_top as int
        };
        placed(layout, self.screen_x as int, y, top)
    }

    /// The cursor after one step.
    pub open spec fn moved(self, layout: &Layout, step: Move) -> CursorModel {
        match step {
            Move::Left => self.moved_left(layout),
            Move::Right => self.moved_right(layout),
            Move::Up => self.moved_up(layout),
            Move::Down => self.moved_down(layout),
        }
    }

    /// The cursor after a run of steps, taken in order.
    pub open spec fn after_moves(self, layout: &Layout, steps: Seq<Move>) -> CursorModel
        decreases steps.len(),
    {
        if steps.len() == 0 {
            self
        } else {
            self.moved(layout, steps[0]).after_moves(layout, steps.drop_first())
        }
    }

    /// The cursor of a fresh session: on the first cell, nothing scrolled.
    pub fn new(layout: &Layout) -> (cursor: CursorModel)
        requires
            layout.wf(),
        ensures
            cursor == placed(layout, 12, 1, 0),
            cursor.wf(layout),
            layout.visible_rows >= 1 ==> cursor.row_visible(layout),
    {
        CursorModel {
            screen_x: LEFT_MARGIN,
            screen_y: 1,
            scroll_top: 0,
            byte_index: layout.offset_at(LEFT_MARGIN, 1),
        }
    }

    /// Puts the cursor on (`x`, `y`) where that is a cell within the cursor's
    /// bounds, and says whether it was; any other position changes nothing.
    pub fn set_pos(&mut self, layout: &Layout, x: usize, y: usize) -> (accepted: bool)
        requires
            layout.wf(),
            old(self).wf(layout),
        ensures
            accepted == (12 <= x <= max_x(layout) && (x - 12) % 3 == 0 && 1 <= y <= max_y(layout)),
            accepted ==> *final(self) == placed(layout, x as int, y as int, old(self).scroll_top as int),
            !accepted ==> *final(self) == *old(self),
            final(self).wf(layout),
    {
        let width: usize = layout.terminal_width;
        let right: usize = if width > LEFT_MARGIN + 2 { width - 2 } else { LEFT_MARGIN };
        let bottom: usize = if layout.total_rows > 1 { layout.total_rows } else { 1 };
        if x < LEFT_MARGIN || x > right || (x - LEFT_MARGIN) % CELL_WIDTH != 0 || y < 1 || y > bottom {
            return false;
        }
        self.screen_x = x;
        self.screen_y = y;
        self.byte_index = layout.offset_at(x, y);
        true
    }

    /// Moves one cell to the left.
    pub fn move_left(&mut self, layout: &Layout)
        requires
            layout.wf(),
            old(self).wf(layout),
        ensures
            *final(self) == old(self).moved_left(layout),
            final(self).wf(layout),
            final(self).scroll_top == old(self).scroll_top,
            old(self).row_visible(layout) ==> final(self).row_visible(layout),
    {
        if self.screen_x >= LEFT_MARGIN + CELL_WIDTH {
            self.screen_x = self.screen_x - CELL_WIDTH;
        }
        self.byte_index = layout.offset_at(self.screen_x, self.screen_y);
    }

    /// Moves one cell to the right.
    pub fn move_right(&mut self, layout: &Layout)
        requires
            layout.wf(),
            old(self).wf(layout),
        ensures
            *final(self) == old(self).moved_right(layout),
            final(self).wf(layout),
            final(self).scroll_top == old(self).scroll_top,
            old(self).row_visible(layout) ==> final(self).row_visible(layout),
    {
        let width: usize = layout.terminal_width;
        let right: usize = if width > LEFT_MARGIN + 2 { width - 2 } else { LEFT_MARGIN };
        if self.screen_x + CELL_WIDTH <= right {
            self.screen_x = self.screen_x + CELL_WIDTH;
        }
        self.byte_index = layout.offset_at(self.screen_x, self.screen_y);
    }

    /// Moves one row up.
    pub fn move_up(&mut self, layout: &Layout)
        requires
            layout.wf(),
            old(self).wf(layout),
        ensures
            *final(self) == old(self).moved_up(layout),
            final(self).wf(layout),
            final(self).scroll_top <= old(self).scroll_top,
            old(self).row_visible(layout) ==> final(self).row_visible(layout),
    {
        if self.screen_y > 1 {
            self.screen_y = self.screen_y - 1;
        }
        if self.screen_y <= self.scroll_top {
            self.scroll_top = self.screen_y - 1;
        }
        self.byte_index = layout.offset_at(self.screen_x, self.screen_y);
    }

    /// Moves one row down.
    pub fn move_down(&mut self, layout: &Layout)
        requires
            layout.wf(),
            old(self).wf(layout),
        ensures
            *final(self) == old(self).moved_down(layout),
            final(self).wf(layout),
            final(self).scroll_top <= max_scroll(layout),
            old(self).row_visible(layout) ==> final(self).row_visible(layout),
    {
        if self.screen_y < layout.total_rows {
            self.screen_y = self.screen_y + 1;
        }
        let visible: usize = layout.visible_rows;
        if self.scroll_top < layout.total_rows && visible < layout.total_rows - self.scroll_top
            && self.screen_y > self.scroll_top + visible {
            self.scroll_top = self.scroll_top + 1;
        }
        self.byte_index = layout.offset_at(self.screen_x, self.screen_y);
    }

    /// Takes one step.
    pub fn apply(&mut self, layout: &Layout, step: Move)
        requires
            layout.wf(),
            old(self).wf(layout),
        ensures
            *final(self) == old(self).moved(layout, step),
            final(self).wf(layout),
            old(self).row_visible(layout) ==> final(self).row_visible(layout),
    {
        match step {
            Move::Left => self.move_left(layout),
            Move::Right => self.move_right(layout),
            Move::Up => self.move_up(layout),
            Move::Down => self.move_down(layout),
        }
    }
}

/// Any run of steps keeps the cursor within its bounds: the first visible row
/// never passes what the window leaves of the grid and never falls below
/// zero, and where the active row was inside the window it still is.
pub proof fn lemma_moves_keep_bounds(cursor: CursorModel, layout: &Layout, steps: Seq<Move>)
    requires
        layout.wf(),
        cursor.wf(layout),
    ensures
        cursor.after_moves(layout, steps).wf(layout),
        0 <= cursor.after_moves(layout, steps).scroll_top <= max_scroll(layout),
        cursor.row_visible(layout) ==> cursor.after_moves(layout, steps).row_visible(layout),
    decreases steps.len(),
{
    if steps.len() > 0 {
        lemma_move_keeps_bounds(cursor, layout, steps[0]);
        lemma_moves_keep_bounds(cursor.moved(layout, steps[0]), layout, steps.drop_first());
    }
}

/// One step keeps the cursor within its bounds and the active row inside the
/// window.
pub proof fn lemma_move_keeps_bounds(cursor: CursorModel, layout: &Layout, step: Move)
    requires
        layout.wf(),
        cursor.wf(layout),
    ensures
        cursor.moved(layout, step).wf(layout),
        cursor.row_visible(layout) ==> cursor.moved(layout, step).row_visible(layout),
{
}

/// Steps to the left and to the right leave the window where it is.
pub proof fn lemma_sideways_keeps_window(cursor: CursorModel, layout: &Layout)
    ensures
        cursor.moved_left(layout).scroll_top == cursor.scroll_top,
        cursor.moved_right(layout).scroll_top == cursor.scroll_top,
        cursor.moved_left(layout).screen_y == cursor.screen_y,
        cursor.moved_right(layout).screen_y == cursor.screen_y,
{
}

} // verus!
