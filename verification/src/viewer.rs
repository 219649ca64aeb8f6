//! The viewer: a session that runs. Every key is answered by the next state
//! and by what is to be shown; reading keys and writing to the terminal and
//! to files is left to the caller.

use vstd::prelude::*;
use vstd::string::StringExecFns;
use crate::buffer::{BufferView, ByteBuffer};
use crate::cursor::{max_x, max_y, placed, CursorModel, Move};
use crate::frame::{active_index, cell_at, cell_model, frame_model, render, Cell, Frame};
use crate::history::{undo_target, EditHistory};
use crate::layout::Layout;
use crate::paint::{cell_text, dump, dump_text, paint_grid, paint_status, push_cell};
use crate::session::{is_cancel, is_enter, lemma_key_keeps_wf, line_of, presented, screen_text, Action,
    ActionView, EditError, Feedback, Key, Mode, ModeView, Purpose, SaveOutcome, ViewerView};
use crate::term::{cursor_left, goto, Palette};
use crate::text::{is_yes, parse_hex_byte, push_hex};

verus! {

#[derive(Clone, Copy)]
enum Stage {
    Browsing,
    LineInput(Purpose),
    ConfirmExit,
    Terminated,
}

/// One session of the viewer.
pub struct HexViewer {
    buffer: ByteBuffer,
    history: EditHistory,
    layout: Layout,
    cursor: CursorModel,
    stage: Stage,
    prompt: String,
    line: String,
}

impl View for HexViewer {
    type V = ViewerView;

    closed spec fn view(&self) -> ViewerView {
        ViewerView {
            buffer: self.buffer@,
            history: self.history@,
            layout: self.layout,
            cursor: self.cursor,
            mode: match self.stage {
                Stage::Browsing => ModeView::Browsing,
                Stage::LineInput(purpose) => ModeView::LineInput {
                    purpose,
                    prompt: self.prompt@,
                    line: self.line@,
                },
                Stage::ConfirmExit => ModeView::ConfirmExit { line: self.line@ },
                Stage::Terminated => ModeView::Terminated,
            },
        }
    }
}

impl HexViewer {
    /// The parts of the session fit together.
    pub open spec fn wf(&self) -> bool {
        self@.wf()
    }

    fn start(buffer: ByteBuffer, size: Option<(u16, u16)>) -> (viewer: HexViewer)
        requires
            buffer@.wf(),
        ensures
            viewer@ == ViewerView::initial(
                buffer@,
                Layout::spec_from_terminal(size, buffer@.working.len() as int),
            ),
            viewer.wf(),
    {
        let layout: Layout = Layout::from_terminal(size, buffer.len());
        let cursor: CursorModel = CursorModel::new(&layout);
        HexViewer {
            buffer,
            history: EditHistory::new(),
            layout,
            cursor,
            stage: Stage::Browsing,
            prompt: String::new(),
            line: String::new(),
        }
    }

    /// A session over the bytes `doc` of the file `file_name`, in a terminal
    /// of the size `size`, or of the fallback size where `size` is `None`.
    /// The buffer is clean, nothing is in the log, and the cursor is on
    /// the first cell.
    pub fn init_file(file_name: &str, doc: Vec<u8>, size: Option<(u16, u16)>, read_only: bool) -> (viewer:
        HexViewer)
        ensures
            viewer@ == ViewerView::initial(
                BufferView { working: doc@, baseline: doc@, display_name: file_name@, read_only },
                Layout::spec_from_terminal(size, doc@.len() as int),
            ),
            viewer.wf(),
            !viewer@.buffer.dirty(),
    {
        HexViewer::start(ByteBuffer::load(doc, file_name, read_only), size)
    }

    /// A session over a fresh buffer of `length` zero bytes, named
    /// `untitled`.
    pub fn init_length(length: usize, size: Option<(u16, u16)>, read_only: bool) -> (viewer: HexViewer)
        ensures
            viewer@ == ViewerView::initial(
                BufferView {
                    working: Seq::new(length as nat, |i: int| 0u8),
                    baseline: Seq::new(length as nat, |i: int| 0u8),
                    display_name: crate::buffer::untitled(),
                    read_only,
                },
                Layout::spec_from_terminal(size, length as int),
            ),
            viewer.wf(),
            !viewer@.buffer.dirty(),
    {
        HexViewer::start(ByteBuffer::zeroed(length, read_only), size)
    }

    /// The buffer.
    pub fn buffer(&self) -> (buffer: &ByteBuffer)
        ensures
            buffer@ == self@.buffer,
    {
        &self.buffer
    }

    /// The undo log.
    pub fn history(&self) -> (history: &EditHistory)
        ensures
            history@ == self@.history,
    {
        &self.history
    }

    /// The geometry.
    pub fn layout(&self) -> (layout: Layout)
        ensures
            layout == self@.layout,
    {
        self.layout
    }

    /// The cursor.
    pub fn cursor(&self) -> (cursor: CursorModel)
        ensures
            cursor == self@.cursor,
    {
        self.cursor
    }

    /// What the session is doing.
    pub fn mode(&self) -> (mode: Mode)
        ensures
            mode@ == self@.mode,
    {
        match self.stage {
            Stage::Browsing => Mode::Browsing,
            Stage::LineInput(purpose) => Mode::LineInput {
                purpose,
                prompt: self.prompt.clone(),
                line: self.line.clone(),
            },
            Stage::ConfirmExit => Mode::ConfirmExit { line: self.line.clone() },
            Stage::Terminated => Mode::Terminated,
        }
    }

    /// Whether the working copy differs from the baseline.
    pub fn is_dirty(&self) -> (dirty: bool)
        ensures
            dirty == self@.buffer.dirty(),
    {
        self.buffer.is_dirty()
    }

    /// Moves the cursor one cell to the right.
    pub fn inc_x(&mut self)
        requires
            old(self).wf(),
        ensures
            final(self)@ == old(self)@.moved(Move::Right),
            final(self).wf(),
    {
        let layout: Layout = self.layout;
        self.cursor.move_right(&layout);
    }

    /// Moves the cursor one cell to the left.
    pub fn dec_x(&mut self)
        requires
            old(self).wf(),
        ensures
            final(self)@ == old(self)@.moved(Move::Left),
            final(self).wf(),
    {
        let layout: Layout = self.layout;
        self.cursor.move_left(&layout);
    }

    /// Moves the cursor one row down, and the window with it where the row
    /// lies below the window.
    pub fn inc_y(&mut self)
        requires
            old(self).wf(),
        ensures
            final(self)@ == old(self)@.moved(Move::Down),
            final(self).wf(),
    {
        let layout: Layout = self.layout;
        self.cursor.move_down(&layout);
    }

    /// Moves the cursor one row up, and the window with it where the row
    /// lies above the window.
    pub fn dec_y(&mut self)
        requires
            old(self).wf(),
        ensures
            final(self)@ == old(self)@.moved(Move::Up),
            final(self).wf(),
    {
        let layout: Layout = self.layout;
        self.cursor.move_up(&layout);
    }

    /// Puts the cursor on screen position (`x`, `y`) where that is a cell
    /// within the cursor's bounds, and says whether it was; any other
    /// position changes nothing.
    pub fn set_pos(&mut self, x: usize, y: usize) -> (accepted: bool)
        requires
            old(self).wf(),
        ensures
            accepted == (12 <= x <= max_x(&old(self)@.layout) && (x - 12) % 3 == 0 && 1 <= y <= max_y(
                &old(self)@.layout,
            )),
            accepted ==> final(self)@ == (ViewerView {
                cursor: placed(&old(self)@.layout, x as int, y as int, old(self)@.cursor.scroll_top as int),
                ..old(self)@
            }),
            !accepted ==> final(self)@ == old(self)@,
            final(self).wf(),
    {
        let layout: Layout = self.layout;
        self.cursor.set_pos(&layout, x, y)
    }

    /// Writes the byte that `text` stands for under the cursor and returns
    /// the offset. The edit is refused, with nothing changed, where the
    /// buffer is read-only, where the cursor is on no byte, and where `text`
    /// is not a byte in two hexadecimal digits.
    pub fn edit(&mut self, text: &str) -> (done: Result<usize, EditError>)
        requires
            old(self).wf(),
        ensures
            (final(self)@, done) == old(self)@.edited_with(text@),
            final(self).wf(),
    {
        if self.buffer.is_read_only() {
            return Err(EditError::ReadOnly);
        }
        match self.cursor.byte_index {
            None => Err(EditError::CursorOutOfRange),
            Some(offset) => match parse_hex_byte(text) {
                None => Err(EditError::InvalidHexInput),
                Some(value) => {
                    self.write_byte(offset, value);
                    Ok(offset)
                },
            },
        }
    }

    fn write_byte(&mut self, offset: usize, value: u8)
        requires
            old(self).wf(),
            old(self)@.cursor.byte_index == Some(offset),
        ensures
            final(self)@ == old(self)@.with_byte(value),
            final(self).wf(),
    {
        match self.buffer.write(offset, value) {
            Some(previous) => {
                self.history.push(offset, previous);
            },
            None => {},
        }
    }

    /// Takes back the newest edit and returns its offset; `None`, with
    /// nothing changed, where the log is empty.
    pub fn undo(&mut self) -> (offset: Option<usize>)
        requires
            old(self).wf(),
        ensures
            final(self)@ == old(self)@.undone(),
            offset == undo_target(old(self)@.buffer.working, old(self)@.history),
            final(self).wf(),
    {
        self.history.pop_and_restore(&mut self.buffer)
    }

    /// The frame of the session: the visible rows and the status line.
    pub fn render(&self) -> (frame: Frame)
        requires
            self.wf(),
        ensures
            frame@ == frame_model(self@.buffer, self@.history, &self@.layout, &self@.cursor),
    {
        render(&self.buffer, &self.layout, &self.cursor, &self.history)
    }

    /// The cell with index `index` as it stands on the screen.
    pub fn print_bit(&self, index: usize, palette: &Palette) -> (text: String)
        requires
            self.wf(),
        ensures
            text@ == cell_text(
                cell_model(
                    self@.buffer.working,
                    self@.history,
                    active_index(&self@.layout, &self@.cursor),
                    index as int,
                ),
                palette@,
            ),
    {
        let cell: Cell = cell_at(&self.buffer, &self.history, &self.layout, &self.cursor, index);
        let mut text: String = String::new();
        push_cell(&mut text, &cell, palette);
        assert(Seq::<char>::empty() + cell_text(cell, palette@) =~= cell_text(cell, palette@));
        text
    }

    /// The whole screen of the session as text for the terminal.
    pub fn show_document(&self, palette: &Palette) -> (text: String)
        requires
            self.wf(),
        ensures
            text@ == screen_text(self@, palette@),
    {
        let frame: Frame = self.render();
        let height: usize = self.layout.terminal_height;
        let status_row: u16 = if height >= 2 { (height - 1) as u16 } else { 1 };
        let cursor_row: u16 = if self.cursor.screen_y <= 0xFFFF { self.cursor.screen_y as u16 } else { 0xFFFF };
        let mut text: String = palette.clear_screen.clone();
        text.append(goto(1, 1).as_str());
        text.append(paint_grid(&frame.rows, palette, "\r\n").as_str());
        text.append(goto(1, status_row).as_str());
        text.append(paint_status(&frame.status, palette).as_str());
        text.append(goto(self.cursor.screen_x as u16, cursor_row).as_str());
        text
    }

    /// The whole buffer as text without styling: every row with its offset
    /// label and all its cells, then one more line feed.
    pub fn dump(&self) -> (text: String)
        requires
            self.wf(),
        ensures
            text@ == dump_text(self@.buffer.working, self@.layout.columns_per_row as int),
    {
        dump(self.buffer.working(), &self.layout)
    }

    fn enter(&mut self, stage: Stage, prompt: String, line: String)
        ensures
            final(self)@ == old(self)@.with_mode(
                match stage {
                    Stage::Browsing => ModeView::Browsing,
                    Stage::LineInput(purpose) => ModeView::LineInput { purpose, prompt: prompt@, line: line@ },
                    Stage::ConfirmExit => ModeView::ConfirmExit { line: line@ },
                    Stage::Terminated => ModeView::Terminated,
                },
            ),
    {
        self.stage = stage;
        self.prompt = prompt;
        self.line = line;
    }

    fn browse(&mut self)
        ensures
            final(self)@ == old(self)@.with_mode(ModeView::Browsing),
    {
        self.enter(Stage::Browsing, String::new(), String::new());
    }

    fn step(&mut self, step: Move) -> (action: Action)
        requires
            old(self).wf(),
        ensures
            final(self)@ == old(self)@.moved(step),
            action@ == ActionView::Redraw,
            final(self).wf(),
    {
        let layout: Layout = self.layout;
        self.cursor.apply(&layout, step);
        Action::Redraw
    }

    fn request_exit(&mut self) -> (action: Action)
        requires
            old(self).wf(),
            old(self)@.mode is Browsing,
        ensures
            (final(self)@, action@) == old(self)@.after_browsing_key(Key::Ctrl('x')),
    {
        if self.buffer.is_dirty() {
            self.enter(Stage::ConfirmExit, String::new(), String::new());
            Action::Prompt
        } else {
            self.enter(Stage::Terminated, String::new(), String::new());
            Action::Quit
        }
    }

    fn request_save(&mut self) -> (action: Action)
        requires
            old(self).wf(),
            old(self)@.mode is Browsing,
        ensures
            (final(self)@, action@) == old(self)@.after_browsing_key(Key::Ctrl('o')),
    {
        if self.buffer.is_read_only() {
            Action::Report(Feedback::ReadOnly)
        } else {
            let name: String = String::from_str(self.buffer.display_name());
            self.enter(Stage::LineInput(Purpose::Save), String::from_str("Output file path: "), name);
            Action::Prompt
        }
    }

    fn request_edit(&mut self) -> (action: Action)
        requires
            old(self).wf(),
            old(self)@.mode is Browsing,
        ensures
            (final(self)@, action@) == old(self)@.after_browsing_key(Key::Char('i')),
    {
        if self.buffer.is_read_only() {
            return Action::Report(Feedback::ReadOnly);
        }
        match self.cursor.byte_index {
            None => Action::Report(Feedback::CursorOutOfRange),
            Some(offset) => {
                let mut prompt: String = String::from_str("New hex value for 0x");
                push_hex(&mut prompt, offset, 8);
                prompt.append(": ");
                let mut line: String = String::new();
                match self.buffer.get(offset) {
                    Some(value) => {
                        push_hex(&mut line, value as usize, 2);
                    },
                    None => {},
                }
                assert(line@ =~= crate::text::hex_text(self@.buffer.working[offset as int] as nat, 2));
                self.enter(Stage::LineInput(Purpose::Edit), prompt, line);
                Action::Prompt
            },
        }
    }

    fn request_undo(&mut self) -> (action: Action)
        requires
            old(self).wf(),
            old(self)@.mode is Browsing,
        ensures
            (final(self)@, action@) == old(self)@.after_browsing_key(Key::Ctrl('z')),
    {
        match self.undo() {
            Some(offset) => Action::Report(Feedback::Undone(offset)),
            None => Action::Report(Feedback::NothingToUndo),
        }
    }

    fn browsing_key(&mut self, key: Key) -> (action: Action)
        requires
            old(self).wf(),
            old(self)@.mode is Browsing,
        ensures
            (final(self)@, action@) == old(self)@.after_browsing_key(key),
    {
        match key {
            Key::Ctrl(c) => {
                if c == 'x' {
                    self.request_exit()
                } else if c == 'o' {
                    self.request_save()
                } else if c == 'z' {
                    self.request_undo()
                } else {
                    Action::Idle
                }
            },
            Key::Char(c) => {
                if c == 'i' {
                    self.request_edit()
                } else if c == 'h' {
                    self.step(Move::Left)
                } else if c == 'l' {
                    self.step(Move::Right)
                } else if c == 'k' {
                    self.step(Move::Up)
                } else if c == 'j' {
                    self.step(Move::Down)
                } else {
                    Action::Idle
                }
            },
            Key::Left => self.step(Move::Left),
            Key::Backspace => self.step(Move::Left),
            Key::Right => self.step(Move::Right),
            Key::Up => self.step(Move::Up),
            Key::Down => self.step(Move::Down),
            Key::Esc => Action::Idle,
            Key::Other => Action::Idle,
        }
    }

    fn submit(&mut self, purpose: Purpose) -> (action: Action)
        requires
            old(self).wf(),
            old(self)@.mode matches ModeView::LineInput { purpose: open, .. } && open == purpose,
        ensures
            (final(self)@, action@) == old(self)@.after_submit(purpose, line_of(old(self)@.mode)),
    {
        let line: String = self.line.clone();
        self.browse();
        match purpose {
            Purpose::Edit => {
                match self.edit(line.as_str()) {
                    Ok(offset) => Action::Report(Feedback::Updated(offset)),
                    Err(EditError::ReadOnly) => Action::Report(Feedback::ReadOnly),
                    Err(EditError::CursorOutOfRange) => Action::Report(Feedback::CursorOutOfRange),
                    Err(EditError::InvalidHexInput) => Action::Report(Feedback::InvalidHexInput),
                }
            },
            Purpose::Save => {
                if self.buffer.is_read_only() {
                    Action::Report(Feedback::ReadOnly)
                } else {
                    Action::WriteFile(line)
                }
            },
        }
    }

    fn typing_key(&mut self, key: Key) -> (action: Action)
        requires
            old(self)@.mode is LineInput || old(self)@.mode is ConfirmExit,
        ensures
            (final(self)@, action@) == old(self)@.after_typing(key),
    {
        match key {
            Key::Char(c) => {
                self.line.push(c);
                Action::Echo(c)
            },
            Key::Backspace => {
                match self.line.pop() {
                    Some(_) => Action::Erase,
                    None => Action::Idle,
                }
            },
            _ => Action::Idle,
        }
    }

    fn line_key(&mut self, purpose: Purpose, key: Key) -> (action: Action)
        requires
            old(self).wf(),
            old(self)@.mode matches ModeView::LineInput { purpose: open, .. } && open == purpose,
        ensures
            (final(self)@, action@) == old(self)@.after_key(key),
    {
        if is_cancel_key(key) {
            self.browse();
            Action::Report(cancel_feedback(purpose))
        } else if is_enter_key(key) {
            if self.line.as_str().is_empty() {
                self.browse();
                Action::Report(cancel_feedback(purpose))
            } else {
                self.submit(purpose)
            }
        } else {
            self.typing_key(key)
        }
    }

    fn confirm_key(&mut self, key: Key) -> (action: Action)
        requires
            old(self).wf(),
            old(self)@.mode is ConfirmExit,
        ensures
            (final(self)@, action@) == old(self)@.after_key(key),
    {
        if is_cancel_key(key) {
            self.browse();
            Action::Report(Feedback::ExitCancelled)
        } else if is_enter_key(key) {
            if is_yes(self.line.as_str()) {
                self.enter(Stage::Terminated, String::new(), String::new());
                Action::Quit
            } else {
                self.browse();
                Action::Report(Feedback::ExitCancelled)
            }
        } else {
            self.typing_key(key)
        }
    }

    /// Takes one key: the session moves to its next state, and the result
    /// says what is to be done then.
    pub fn handle_key(&mut self, key: Key) -> (action: Action)
        requires
            old(self).wf(),
        ensures
            (final(self)@, action@) == old(self)@.after_key(key),
            final(self).wf(),
    {
        proof {
            lemma_key_keeps_wf(self@, key);
        }
        match self.stage {
            Stage::Browsing => self.browsing_key(key),
            Stage::LineInput(purpose) => self.line_key(purpose, key),
            Stage::ConfirmExit => self.confirm_key(key),
            Stage::Terminated => Action::Quit,
        }
    }

    /// Takes a run of keys, one after the other. What each key asked to be
    /// shown is dropped: this is a session without a screen.
    pub fn run(&mut self, keys: &Vec<Key>)
        requires
            old(self).wf(),
        ensures
            final(self)@ == old(self)@.after_keys(keys@),
            final(self).wf(),
    {
        let mut i: usize = 0;
        assert(keys@.subrange(0, keys@.len() as int) == keys@);
        while i < keys.len()
            invariant
                i <= keys.len(),
                self.wf(),
                self@.after_keys(keys@.subrange(i as int, keys@.len() as int)) == old(self)@.after_keys(keys@),
            decreases keys.len() - i,
        {
            proof {
                let rest = keys@.subrange(i as int, keys@.len() as int);
                assert(rest[0] == keys@[i as int]);
                assert(rest.drop_first() == keys@.subrange(i + 1, keys@.len() as int));
            }
            let _ = self.handle_key(keys[i]);
            i = i + 1;
        }
    }

    /// Takes the end of the writing that `Action::WriteFile` asked for: how
    /// the writing of the working copy to `path` ended.
    pub fn save_finished(&mut self, path: &str, outcome: &SaveOutcome) -> (action: Action)
        requires
            old(self).wf(),
        ensures
            (final(self)@, action@) == old(self)@.after_save(path@, outcome@),
            final(self).wf(),
    {
        if self.buffer.is_read_only() {
            return Action::Report(Feedback::ReadOnly);
        }
        match self.stage {
            Stage::Browsing => {
                match outcome {
                    SaveOutcome::Written => {
                        self.buffer.mark_saved(path);
                        Action::Report(Feedback::Saved(String::from_str(path)))
                    },
                    SaveOutcome::OpenFailed => Action::Report(Feedback::OpenFailed(String::from_str(path))),
                    SaveOutcome::WriteFailed(reason) => Action::Report(Feedback::WriteFailed(reason.clone())),
                }
            },
            _ => Action::Idle,
        }
    }

    /// What `action` puts on the terminal, in the session as the action has
    /// left it.
    pub fn present(&self, action: &Action, palette: &Palette) -> (text: String)
        requires
            self.wf(),
        ensures
            text@ == presented(self@, action@, palette@),
    {
        let height: usize = self.layout.terminal_height;
        let message_row: u16 = if height >= 1 { height as u16 } else { 1 };
        match action {
            Action::Idle => String::new(),
            Action::Redraw => self.show_document(palette),
            Action::Report(feedback) => {
                let mut text: String = self.show_document(palette);
                let mut message: String = goto(1, message_row);
                message.append(palette.clear_line.as_str());
                message.append(feedback.message().as_str());
                message.append(palette.reset.as_str());
                text.append(message.as_str());
                text
            },
            Action::Prompt => {
                let mut text: String = goto(1, message_row);
                text.append(palette.clear_line.as_str());
                match self.stage {
                    Stage::LineInput(_) => {
                        text.append(self.prompt.as_str());
                        text.append(self.line.as_str());
                    },
                    Stage::ConfirmExit => {
                        text.append("You have unsaved changes. Exit without saving? (Y/n): ");
                        text.append(self.line.as_str());
                    },
                    _ => {
                        assert(text@ + Seq::<char>::empty() =~= text@);
                    },
                }
                text
            },
            Action::Echo(c) => {
                let mut text: String = String::new();
                text.push(*c);
                assert(text@ =~= seq![*c]);
                text
            },
            Action::Erase => {
                let mut text: String = cursor_left(1);
                text.append(" ");
                text.append(cursor_left(1).as_str());
                text
            },
            Action::WriteFile(_) => self.show_document(palette),
            Action::Quit => String::new(),
        }
    }
}

fn is_cancel_key(key: Key) -> (cancel: bool)
    ensures
        cancel == is_cancel(key),
{
    match key {
        Key::Esc => true,
        Key::Ctrl(c) => c == 'c',
        _ => false,
    }
}

fn is_enter_key(key: Key) -> (enter: bool)
    ensures
        enter == is_enter(key),
{
    match key {
        Key::Char(c) => c == '\n',
        _ => false,
    }
}

fn cancel_feedback(purpose: Purpose) -> (feedback: Feedback)
    ensures
        feedback@ == crate::session::cancelled(purpose),
{
    match purpose {
        Purpose::Edit => Feedback::EditCancelled,
        Purpose::Save => Feedback::SaveCancelled,
    }
}

} // verus!
