//! The session: one buffer with its undo log, geometry and cursor, and the
//! rules by which keys change them.

use vstd::prelude::*;
use crate::buffer::BufferView;
use crate::cursor::{lemma_move_keeps_bounds, placed, CursorModel, Move};
use crate::history::{edited, lemma_edit_keeps_log_within, lemma_undo_inverts_edit,
    lemma_undo_keeps_log_within, log_within, undo_target, undone};
use crate::layout::Layout;
use vstd::string::StringExecFns;
use crate::frame::frame_model;
use crate::paint::{grid_text, status_text};
use crate::term::{goto_code, left_code, PaletteView};
use crate::text::{hex_byte, hex_text, is_yes_text, push_hex};

verus! {

/// A key, as the session reads it.
#[derive(Clone, Copy, Debug, PartialEq, Eq)]
pub enum Key {
    Backspace,
    Left,
    Right,
    Up,
    Down,
    Esc,
    /// A character; the enter key is the line feed.
    Char(char),
    /// A character typed with the control key held.
    Ctrl(char),
    /// Any key that the session has no use for.
    Other,
}

/// What a line of input is asked for.
#[derive(Clone, Copy, Debug, PartialEq, Eq)]
pub enum Purpose {
    /// The new value of the byte under the cursor.
    Edit,
    /// The path to save the buffer under.
    Save,
}

/// Why an edit was refused.
#[derive(Clone, Copy, Debug, PartialEq, Eq)]
pub enum EditError {
    /// The buffer is read-only.
    ReadOnly,
    /// The cursor is on a padding cell: there is no byte to change.
    CursorOutOfRange,
    /// The text is not a byte in two hexadecimal digits.
    InvalidHexInput,
}

/// How the writing of the buffer to a file ended.
#[derive(Debug, PartialEq, Eq)]
pub enum SaveOutcome {
    /// All bytes were written.
    Written,
    /// The file could not be created.
    OpenFailed,
    /// The file was created, but writing failed for the reason given.
    WriteFailed(String),
}

/// What the session is doing.
#[derive(Debug, PartialEq, Eq)]
pub enum Mode {
    /// Keys move the cursor and start the other modes.
    Browsing,
    /// Keys build a line of input that answers `prompt`.
    LineInput { purpose: Purpose, prompt: String, line: String },
    /// Keys build the answer to the question whether to leave unsaved
    /// changes behind.
    ConfirmExit { line: String },
    /// The session is over.
    Terminated,
}

/// What the session has to tell the user on the message line.
#[derive(Debug, PartialEq, Eq)]
pub enum Feedback {
    /// An edit or a save was refused: the buffer is read-only.
    ReadOnly,
    /// An edit was refused: the cursor is on a padding cell.
    CursorOutOfRange,
    /// The byte at the offset was changed.
    Updated(usize),
    /// The typed text was not a byte in two hexadecimal digits.
    InvalidHexInput,
    /// The edit prompt was left without a value.
    EditCancelled,
    /// The byte at the offset has its earlier value back.
    Undone(usize),
    /// The undo log was empty.
    NothingToUndo,
    /// The buffer was written to the path.
    Saved(String),
    /// The file at the path could not be created.
    OpenFailed(String),
    /// Writing failed for the reason given.
    WriteFailed(String),
    /// The save prompt was left without a path.
    SaveCancelled,
    /// The session goes on: the exit was not confirmed.
    ExitCancelled,
}

/// What is to be done after a key or a save.
#[derive(Debug, PartialEq, Eq)]
pub enum Action {
    /// Nothing.
    Idle,
    /// Draw the screen again.
    Redraw,
    /// Draw the screen again, and show the feedback on the message line.
    Report(Feedback),
    /// Show the prompt and the line typed so far on the message line.
    Prompt,
    /// Show the character that was added to the line.
    Echo(char),
    /// Wipe the last character of the line off the screen.
    Erase,
    /// Write the working copy to the path, and hand the outcome to
    /// `save_finished`.
    WriteFile(String),
    /// Leave.
    Quit,
}

/// A `SaveOutcome` as plain mathematical values.
pub enum SaveOutcomeView {
    Written,
    OpenFailed,
    WriteFailed(Seq<char>),
}

/// A `Mode` as plain mathematical values.
pub enum ModeView {
    Browsing,
    LineInput { purpose: Purpose, prompt: Seq<char>, line: Seq<char> },
    ConfirmExit { line: Seq<char> },
    Terminated,
}

/// A `Feedback` as plain mathematical values.
pub enum FeedbackView {
    ReadOnly,
    CursorOutOfRange,
    Updated(usize),
    InvalidHexInput,
    EditCancelled,
    Undone(usize),
    NothingToUndo,
    Saved(Seq<char>),
    OpenFailed(Seq<char>),
    WriteFailed(Seq<char>),
    SaveCancelled,
    ExitCancelled,
}

/// An `Action` as plain mathematical values.
pub enum ActionView {
    Idle,
    Redraw,
    Report(FeedbackView),
    Prompt,
    Echo(char),
    Erase,
    WriteFile(Seq<char>),
    Quit,
}

impl View for SaveOutcome {
    type V = SaveOutcomeView;

    open spec fn view(&self) -> SaveOutcomeView {
        match self {
            SaveOutcome::Written => SaveOutcomeView::Written,
            SaveOutcome::OpenFailed => SaveOutcomeView::OpenFailed,
            SaveOutcome::WriteFailed(reason) => SaveOutcomeView::WriteFailed(reason@),
        }
    }
}

impl View for Mode {
    type V = ModeView;

    open spec fn view(&self) -> ModeView {
        match self {
            Mode::Browsing => ModeView::Browsing,
            Mode::LineInput { purpose, prompt, line } => ModeView::LineInput {
                purpose: *purpose,
                prompt: prompt@,
                line: line@,
            },
            Mode::ConfirmExit { line } => ModeView::ConfirmExit { line: line@ },
            Mode::Terminated => ModeView::Terminated,
        }
    }
}

impl View for Feedback {
    type V = FeedbackView;

    open spec fn view(&self) -> FeedbackView {
        match self {
            Feedback::ReadOnly => FeedbackView::ReadOnly,
            Feedback::CursorOutOfRange => FeedbackView::CursorOutOfRange,
            Feedback::Updated(offset) => FeedbackView::Updated(*offset),
            Feedback::InvalidHexInput => FeedbackView::InvalidHexInput,
            Feedback::EditCancelled => FeedbackView::EditCancelled,
            Feedback::Undone(offset) => FeedbackView::Undone(*offset),
            Feedback::NothingToUndo => FeedbackView::NothingToUndo,
            Feedback::Saved(path) => FeedbackView::Saved(path@),
            Feedback::OpenFailed(path) => FeedbackView::OpenFailed(path@),
            Feedback::WriteFailed(reason) => FeedbackView::WriteFailed(reason@),
            Feedback::SaveCancelled => FeedbackView::SaveCancelled,
            Feedback::ExitCancelled => FeedbackView::ExitCancelled,
        }
    }
}

impl View for Action {
    type V = ActionView;

    open spec fn view(&self) -> ActionView {
        match self {
            Action::Idle => ActionView::Idle,
            Action::Redraw => ActionView::Redraw,
            Action::Report(feedback) => ActionView::Report(feedback@),
            Action::Prompt => ActionView::Prompt,
            Action::Echo(c) => ActionView::Echo(*c),
            Action::Erase => ActionView::Erase,
            Action::WriteFile(path) => ActionView::WriteFile(path@),
            Action::Quit => ActionView::Quit,
        }
    }
}

/// The question of the save prompt.
pub open spec fn save_prompt() -> Seq<char> {
    "Output file path: "@
}

/// The question of the edit prompt for the byte at `offset`.
pub open spec fn edit_prompt(offset: usize) -> Seq<char> {
    "New hex value for 0x"@ + hex_text(offset as nat, 8) + ": "@
}

/// The question asked before unsaved changes are left behind.
pub open spec fn exit_prompt() -> Seq<char> {
    "You have unsaved changes. Exit without saving? (Y/n): "@
}

/// The words of a feedback.
pub open spec fn feedback_text(feedback: FeedbackView) -> Seq<char> {
    match feedback {
        FeedbackView::ReadOnly => "Buffer is read-only."@,
        FeedbackView::CursorOutOfRange => "No byte under the cursor."@,
        FeedbackView::Updated(offset) => "Updated 0x"@ + hex_text(offset as nat, 8),
        FeedbackView::InvalidHexInput => "Invalid hexadecimal input!"@,
        FeedbackView::EditCancelled => "Changes Cancelled!"@,
        FeedbackView::Undone(offset) => "Undid value of 0x"@ + hex_text(offset as nat, 8),
        FeedbackView::NothingToUndo => "Nothing to undo."@,
        FeedbackView::Saved(path) => "File saved to: "@ + path,
        FeedbackView::OpenFailed(path) => "Error opening file: "@ + path,
        FeedbackView::WriteFailed(reason) => "Error saving file: "@ + reason,
        FeedbackView::SaveCancelled => "File saving canceled."@,
        FeedbackView::ExitCancelled => "Exit canceled."@,
    }
}

/// The feedback for a prompt that was left without an answer.
pub open spec fn cancelled(purpose: Purpose) -> FeedbackView {
    match purpose {
        Purpose::Edit => FeedbackView::EditCancelled,
        Purpose::Save => FeedbackView::SaveCancelled,
    }
}

/// The same mode with another line typed so far.
pub open spec fn with_line(mode: ModeView, line: Seq<char>) -> ModeView {
    match mode {
        ModeView::LineInput { purpose, prompt, .. } => ModeView::LineInput { purpose, prompt, line },
        ModeView::ConfirmExit { .. } => ModeView::ConfirmExit { line },
        other => other,
    }
}

/// The line typed so far in a mode, if one is being typed.
pub open spec fn line_of(mode: ModeView) -> Seq<char> {
    match mode {
        ModeView::LineInput { line, .. } => line,
        ModeView::ConfirmExit { line } => line,
        _ => Seq::empty(),
    }
}

/// The step that a key stands for while browsing, if it stands for one.
pub open spec fn step_of(key: Key) -> Option<Move> {
    match key {
        Key::Left | Key::Backspace => Some(Move::Left),
        Key::Right => Some(Move::Right),
        Key::Up => Some(Move::Up),
        Key::Down => Some(Move::Down),
        Key::Char(c) => if c == 'h' {
            Some(Move::Left)
        } else if c == 'l' {
            Some(Move::Right)
        } else if c == 'k' {
            Some(Move::Up)
        } else if c == 'j' {
            Some(Move::Down)
        } else {
            None
        },
        _ => None,
    }
}

/// The key asks for an edit of the byte under the cursor.
pub open spec fn is_edit_request(key: Key) -> bool {
    key == Key::Char('i')
}

/// The key asks for the buffer to be saved.
pub open spec fn is_save_request(key: Key) -> bool {
    key == Key::Ctrl('o')
}

/// The key asks for the newest edit to be taken back.
pub open spec fn is_undo_request(key: Key) -> bool {
    key == Key::Ctrl('z')
}

/// The key asks for the session to end.
pub open spec fn is_exit_request(key: Key) -> bool {
    key == Key::Ctrl('x')
}

/// The key leaves a prompt without an answer.
pub open spec fn is_cancel(key: Key) -> bool {
    key == Key::Esc || key == Key::Ctrl('c')
}

/// The key submits the line of a prompt.
pub open spec fn is_enter(key: Key) -> bool {
    key == Key::Char('\n')
}

/// A session as plain mathematical values.
pub struct ViewerView {
    pub buffer: BufferView,
    pub history: Seq<(usize, u8)>,
    pub layout: Layout,
    pub cursor: CursorModel,
    pub mode: ModeView,
}

impl ViewerView {
    /// The parts fit together: both copies of the buffer have one length,
    /// the geometry is that of the buffer, the cursor is within its bounds,
    /// and the log names offsets of the buffer only.
    pub open spec fn wf(self) -> bool {
        &&& self.buffer.wf()
        &&& self.layout.wf()
        &&& self.layout.buffer_length == self.buffer.working.len()
        &&& self.cursor.wf(&self.layout)
        &&& log_within(self.history, self.buffer.working.len() as int)
    }

    /// A session that has just started: nothing edited, the cursor on the
    /// first cell, browsing.
    pub open spec fn initial(buffer: BufferView, layout: Layout) -> ViewerView {
        ViewerView {
            buffer,
            history: Seq::empty(),
            layout,
            cursor: placed(&layout, 12, 1, 0),
            mode: ModeView::Browsing,
        }
    }

    /// The same session in another mode.
    pub open spec fn with_mode(self, mode: ModeView) -> ViewerView {
        ViewerView { mode, ..self }
    }

    /// The session after one step of the cursor.
    pub open spec fn moved(self, step: Move) -> ViewerView {
        ViewerView { cursor: self.cursor.moved(&self.layout, step), ..self }
    }

    /// Why an edit is refused before any text is read, if it is.
    pub open spec fn edit_refusal(self) -> Option<EditError> {
        if self.buffer.read_only {
            Some(EditError::ReadOnly)
        } else if self.cursor.byte_index is None {
            Some(EditError::CursorOutOfRange)
        } else {
            None
        }
    }

    /// The session after `value` was written under the cursor: the log has
    /// one more entry, with the offset and the byte that stood there, and the
    /// working copy has the new byte.
    pub open spec fn with_byte(self, value: u8) -> ViewerView {
        let offset = self.cursor.byte_index->0 as int;
        let after = edited(self.buffer.working, self.history, offset, value);
        ViewerView { buffer: self.buffer.written(offset, value), history: after.1, ..self }
    }

    /// The session after an edit with the typed `text`, and how the edit
    /// ended: refused where the buffer is read-only, where the cursor is on
    /// no byte, and where the text is no byte, in that order, each time with
    /// nothing changed; otherwise done, with the offset that was written.
    pub open spec fn edited_with(self, text: Seq<char>) -> (ViewerView, Result<usize, EditError>) {
        match self.edit_refusal() {
            Some(refusal) => (self, Err(refusal)),
            None => match hex_byte(text) {
                Some(value) => (self.with_byte(value), Ok(self.cursor.byte_index->0)),
                None => (self, Err(EditError::InvalidHexInput)),
            },
        }
    }

    /// The session after an undo.
    pub open spec fn undone(self) -> ViewerView {
        let after = undone(self.buffer.working, self.history);
        ViewerView {
            buffer: BufferView { working: after.0, ..self.buffer },
            history: after.1,
            ..self
        }
    }

    /// The session after a save under `path`.
    pub open spec fn saved(self, path: Seq<char>) -> ViewerView {
        ViewerView { buffer: self.buffer.saved(path), ..self }
    }

    /// What a key does while browsing.
    pub open spec fn after_browsing_key(self, key: Key) -> (ViewerView, ActionView) {
        if is_exit_request(key) {
            if self.buffer.dirty() {
                (self.with_mode(ModeView::ConfirmExit { line: Seq::empty() }), ActionView::Prompt)
            } else {
                (self.with_mode(ModeView::Terminated), ActionView::Quit)
            }
        } else if is_save_request(key) {
            if self.buffer.read_only {
                (self, ActionView::Report(FeedbackView::ReadOnly))
            } else {
                (
                    self.with_mode(
                        ModeView::LineInput {
                            purpose: Purpose::Save,
                            prompt: save_prompt(),
                            line: self.buffer.display_name,
                        },
                    ),
                    ActionView::Prompt,
                )
            }
        } else if is_edit_request(key) {
            match self.edit_refusal() {
                Some(EditError::ReadOnly) => (self, ActionView::Report(FeedbackView::ReadOnly)),
                Some(_) => (self, ActionView::Report(FeedbackView::CursorOutOfRange)),
                None => (
                    self.with_mode(
                        ModeView::LineInput {
                            purpose: Purpose::Edit,
                            prompt: edit_prompt(self.cursor.byte_index->0),
                            line: hex_text(
                                self.buffer.working[self.cursor.byte_index->0 as int] as nat,
                                2,
                            ),
                        },
                    ),
                    ActionView::Prompt,
                ),
            }
        } else if is_undo_request(key) {
            match undo_target(self.buffer.working, self.history) {
                Some(offset) => (self.undone(), ActionView::Report(FeedbackView::Undone(offset))),
                None => (self.undone(), ActionView::Report(FeedbackView::NothingToUndo)),
            }
        } else {
            match step_of(key) {
                Some(step) => (self.moved(step), ActionView::Redraw),
                None => (self, ActionView::Idle),
            }
        }
    }

    /// The feedback for an edit that ended as `done`.
    pub open spec fn edit_feedback(done: Result<usize, EditError>) -> FeedbackView {
        match done {
            Ok(offset) => FeedbackView::Updated(offset),
            Err(EditError::ReadOnly) => FeedbackView::ReadOnly,
            Err(EditError::CursorOutOfRange) => FeedbackView::CursorOutOfRange,
            Err(EditError::InvalidHexInput) => FeedbackView::InvalidHexInput,
        }
    }

    /// What a submitted line does. The session browses again. An edit is
    /// made with the line as its text, and how it ended is reported. A save
    /// asks for the working copy to be written to the path that the line
    /// gives, unless the buffer is read-only.
    pub open spec fn after_submit(self, purpose: Purpose, line: Seq<char>) -> (ViewerView, ActionView) {
        let browsing = self.with_mode(ModeView::Browsing);
        match purpose {
            Purpose::Edit => (
                browsing.edited_with(line).0,
                ActionView::Report(ViewerView::edit_feedback(browsing.edited_with(line).1)),
            ),
            Purpose::Save => if self.buffer.read_only {
                (browsing, ActionView::Report(FeedbackView::ReadOnly))
            } else {
                (browsing, ActionView::WriteFile(line))
            },
        }
    }

    /// What a key does to the line that is being typed: a character is added
    /// and shown, the backspace key takes the last character off where there
    /// is one, and any other key does nothing.
    pub open spec fn after_typing(self, key: Key) -> (ViewerView, ActionView) {
        let line = line_of(self.mode);
        match key {
            Key::Char(c) => (self.with_mode(with_line(self.mode, line.push(c))), ActionView::Echo(c)),
            Key::Backspace => if line.len() > 0 {
                (self.with_mode(with_line(self.mode, line.drop_last())), ActionView::Erase)
            } else {
                (self, ActionView::Idle)
            },
            _ => (self, ActionView::Idle),
        }
    }

    /// What a key does while a prompt is open: a cancel key and the enter key
    /// on an empty line leave the prompt with nothing done, the enter key on
    /// any other line submits it, and every other key is typing.
    pub open spec fn after_line_key(self, purpose: Purpose, line: Seq<char>, key: Key) -> (
        ViewerView,
        ActionView,
    ) {
        if is_cancel(key) || (is_enter(key) && line.len() == 0) {
            (self.with_mode(ModeView::Browsing), ActionView::Report(cancelled(purpose)))
        } else if is_enter(key) {
            self.after_submit(purpose, line)
        } else {
            self.after_typing(key)
        }
    }

    /// What a key does while the exit waits to be confirmed: the enter key on
    /// a line that means yes ends the session, a cancel key and the enter key
    /// on any other line return to browsing, and every other key is typing.
    pub open spec fn after_confirm_key(self, line: Seq<char>, key: Key) -> (ViewerView, ActionView) {
        if is_cancel(key) || (is_enter(key) && !is_yes_text(line)) {
            (self.with_mode(ModeView::Browsing), ActionView::Report(FeedbackView::ExitCancelled))
        } else if is_enter(key) {
            (self.with_mode(ModeView::Terminated), ActionView::Quit)
        } else {
            self.after_typing(key)
        }
    }

    /// The session after a key, and what is to be done then.
    pub open spec fn after_key(self, key: Key) -> (ViewerView, ActionView) {
        match self.mode {
            ModeView::Browsing => self.after_browsing_key(key),
            ModeView::LineInput { purpose, line, .. } => self.after_line_key(purpose, line, key),
            ModeView::ConfirmExit { line } => self.after_confirm_key(line, key),
            ModeView::Terminated => (self, ActionView::Quit),
        }
    }

    /// The session after a run of keys, taken in order.
    pub open spec fn after_keys(self, keys: Seq<Key>) -> ViewerView
        decreases keys.len(),
    {
        if keys.len() == 0 {
            self
        } else {
            self.after_key(keys[0]).0.after_keys(keys.drop_first())
        }
    }

    /// The session after the writing of the working copy to `path` has
    /// ended, and what is to be done then. A read-only session refuses;
    /// outside browsing nothing happens; otherwise a written file makes the
    /// buffer clean under the new name, and a failure changes nothing.
    pub open spec fn after_save(self, path: Seq<char>, outcome: SaveOutcomeView) -> (ViewerView, ActionView) {
        if self.buffer.read_only {
            (self, ActionView::Report(FeedbackView::ReadOnly))
        } else if !(self.mode is Browsing) {
            (self, ActionView::Idle)
        } else {
            match outcome {
                SaveOutcomeView::Written => (self.saved(path), ActionView::Report(FeedbackView::Saved(path))),
                SaveOutcomeView::OpenFailed => (self, ActionView::Report(FeedbackView::OpenFailed(path))),
                SaveOutcomeView::WriteFailed(reason) => (
                    self,
                    ActionView::Report(FeedbackView::WriteFailed(reason)),
                ),
            }
        }
    }
}

/// The screen row of the status line: the row above the last, and the first
/// row where the terminal has fewer than two.
pub open spec fn status_row(layout: &Layout) -> nat {
    if layout.terminal_height >= 2 {
        (layout.terminal_height - 1) as nat
    } else {
        1
    }
}

/// The screen row of the message line: the last row, and the first row where
/// the terminal has none.
pub open spec fn message_row(layout: &Layout) -> nat {
    if layout.terminal_height >= 1 {
        layout.terminal_height as nat
    } else {
        1
    }
}

/// The screen row that the terminal's cursor is sent to: the row of the
/// active cell, held to what a terminal can address.
pub open spec fn cursor_row(cursor: &CursorModel) -> nat {
    if cursor.screen_y <= u16::MAX {
        cursor.screen_y as nat
    } else {
        u16::MAX as nat
    }
}

/// The question that is open in a mode, if one is.
pub open spec fn prompt_of(mode: ModeView) -> Seq<char> {
    match mode {
        ModeView::LineInput { prompt, .. } => prompt,
        ModeView::ConfirmExit { .. } => exit_prompt(),
        _ => Seq::empty(),
    }
}

/// The whole screen of a session: the screen cleared, the visible rows from
/// the top left corner on, each ended by a carriage return and a line feed,
/// the status line on its row, and the terminal's cursor on the active cell.
pub open spec fn screen_text(session: ViewerView, palette: PaletteView) -> Seq<char> {
    let frame = frame_model(session.buffer, session.history, &session.layout, &session.cursor);
    palette.clear_screen + goto_code(1, 1) + grid_text(frame.rows, palette, "\r\n"@) + goto_code(
        1,
        status_row(&session.layout),
    ) + status_text(frame.status, palette) + goto_code(
        session.cursor.screen_x as nat,
        cursor_row(&session.cursor),
    )
}

/// The message line with `words` on it.
pub open spec fn message_text(layout: &Layout, words: Seq<char>, palette: PaletteView) -> Seq<char> {
    goto_code(1, message_row(layout)) + palette.clear_line + words + palette.reset
}

/// The message line with the open question and the line typed so far.
pub open spec fn prompt_text(session: ViewerView, palette: PaletteView) -> Seq<char> {
    goto_code(1, message_row(&session.layout)) + palette.clear_line + prompt_of(session.mode) + line_of(
        session.mode,
    )
}

/// What wipes the last typed character off the screen: one step back, a
/// space, one step back.
pub open spec fn erase_text() -> Seq<char> {
    left_code(1) + " "@ + left_code(1)
}

/// What an action puts on the terminal, in a session that the action has
/// left behind.
pub open spec fn presented(session: ViewerView, action: ActionView, palette: PaletteView) -> Seq<char> {
    match action {
        ActionView::Idle => Seq::empty(),
        ActionView::Redraw => screen_text(session, palette),
        ActionView::Report(feedback) => screen_text(session, palette) + message_text(
            &session.layout,
            feedback_text(feedback),
            palette,
        ),
        ActionView::Prompt => prompt_text(session, palette),
        ActionView::Echo(c) => seq![c],
        ActionView::Erase => erase_text(),
        ActionView::WriteFile(_) => screen_text(session, palette),
        ActionView::Quit => Seq::empty(),
    }
}

impl Feedback {
    /// The words of the feedback.
    pub fn message(&self) -> (words: String)
        ensures
            words@ == feedback_text(self@),
    {
        match self {
            Feedback::ReadOnly => String::from_str("Buffer is read-only."),
            Feedback::CursorOutOfRange => String::from_str("No byte under the cursor."),
            Feedback::Updated(offset) => {
                let mut words = String::from_str("Updated 0x");
                push_hex(&mut words, *offset, 8);
                words
            },
            Feedback::InvalidHexInput => String::from_str("Invalid hexadecimal input!"),
            Feedback::EditCancelled => String::from_str("Changes Cancelled!"),
            Feedback::Undone(offset) => {
                let mut words = String::from_str("Undid value of 0x");
                push_hex(&mut words, *offset, 8);
                words
            },
            Feedback::NothingToUndo => String::from_str("Nothing to undo."),
            Feedback::Saved(path) => {
                let mut words = String::from_str("File saved to: ");
                words.append(path.as_str());
                words
            },
            Feedback::OpenFailed(path) => {
                let mut words = String::from_str("Error opening file: ");
                words.append(path.as_str());
                words
            },
            Feedback::WriteFailed(reason) => {
                let mut words = String::from_str("Error saving file: ");
                words.append(reason.as_str());
                words
            },
            Feedback::SaveCancelled => String::from_str("File saving canceled."),
            Feedback::ExitCancelled => String::from_str("Exit canceled."),
        }
    }
}

/// A key keeps the parts of a session fitting together.
pub proof fn lemma_key_keeps_wf(session: ViewerView, key: Key)
    requires
        session.wf(),
    ensures
        session.after_key(key).0.wf(),
{
    lemma_undo_keeps_log_within(session.buffer.working, session.history);
    match step_of(key) {
        Some(step) => {
            lemma_move_keeps_bounds(session.cursor, &session.layout, step);
        },
        None => {},
    }
    if session.cursor.byte_index is Some {
        let offset = session.cursor.byte_index->0;
        match session.mode {
            ModeView::LineInput { purpose, prompt, line } => {
                if hex_byte(line) is Some {
                    lemma_edit_keeps_log_within(
                        session.buffer.working,
                        session.history,
                        offset,
                        hex_byte(line)->0,
                    );
                }
            },
            _ => {},
        }
    }
}

/// Any run of keys keeps the parts of a session fitting together; so the
/// cursor stays within its bounds and the window within the grid.
pub proof fn lemma_keys_keep_wf(session: ViewerView, keys: Seq<Key>)
    requires
        session.wf(),
    ensures
        session.after_keys(keys).wf(),
    decreases keys.len(),
{
    if keys.len() > 0 {
        lemma_key_keeps_wf(session, keys[0]);
        lemma_keys_keep_wf(session.after_key(keys[0]).0, keys.drop_first());
    }
}

/// The end of a save keeps the parts of a session fitting together.
pub proof fn lemma_save_keeps_wf(session: ViewerView, path: Seq<char>, outcome: SaveOutcomeView)
    requires
        session.wf(),
    ensures
        session.after_save(path, outcome).0.wf(),
{
}

/// Undo takes back the newest edit: a session in which a byte was written
/// under the cursor and then an undo was made is the session before the
/// edit, with its working copy and its log.
pub proof fn lemma_undo_takes_back_edit(session: ViewerView, value: u8)
    requires
        session.wf(),
        session.cursor.byte_index is Some,
    ensures
        session.with_byte(value).undone() == session,
{
    let offset = session.cursor.byte_index->0;
    lemma_undo_inverts_edit(session.buffer.working, session.history, offset, value);
}

/// A session that has just started is clean.
pub proof fn lemma_initial_is_clean(bytes: Seq<u8>, name: Seq<char>, read_only: bool, layout: Layout)
    ensures
        !ViewerView::initial(
            BufferView { working: bytes, baseline: bytes, display_name: name, read_only },
            layout,
        ).buffer.dirty(),
{
}

/// One edit of a clean buffer makes it dirty exactly when it writes a byte
/// other than the one that stood there.
pub proof fn lemma_edit_makes_dirty(session: ViewerView, value: u8)
    requires
        session.wf(),
        !session.buffer.dirty(),
        session.cursor.byte_index is Some,
    ensures
        session.with_byte(value).buffer.dirty() <==> value != session.buffer.working[session.cursor.byte_index->0 as int],
{
    let offset = session.cursor.byte_index->0 as int;
    let after = session.with_byte(value).buffer;
    if value == session.buffer.working[offset] {
        assert(after.working =~= session.buffer.working);
    } else {
        assert(after.working[offset] != after.baseline[offset]);
    }
}

/// A save makes the buffer clean, whatever was edited before.
pub proof fn lemma_save_makes_clean(session: ViewerView, path: Seq<char>)
    ensures
        !session.saved(path).buffer.dirty(),
        !session.buffer.read_only && session.mode is Browsing ==> !session.after_save(
            path,
            SaveOutcomeView::Written,
        ).0.buffer.dirty(),
{
}

/// A read-only session refuses every request for an edit or a save: the
/// session stays as it is, working copy, baseline and log included, and the
/// refusal is reported. That holds of the keys that ask while browsing, of an
/// edit with any text, and of a save that ended in any way.
pub proof fn lemma_read_only_refuses(session: ViewerView, key: Key, text: Seq<char>, outcome: SaveOutcomeView)
    requires
        session.wf(),
        session.buffer.read_only,
    ensures
        session.mode is Browsing && (is_edit_request(key) || is_save_request(key)) ==> session.after_key(
            key,
        ) == (session, ActionView::Report(FeedbackView::ReadOnly)),
        session.edited_with(text) == (session, Err::<usize, EditError>(EditError::ReadOnly)),
        session.after_save(text, outcome) == (session, ActionView::Report(FeedbackView::ReadOnly)),
{
}

/// In a read-only session no key but an undo changes the buffer or the log,
/// in any mode.
pub proof fn lemma_read_only_keeps_bytes(session: ViewerView, key: Key)
    requires
        session.wf(),
        session.buffer.read_only,
        !(session.mode is Browsing && is_undo_request(key)),
    ensures
        session.after_key(key).0.buffer == session.buffer,
        session.after_key(key).0.history == session.history,
{
}

/// A read-only session that starts with an empty log keeps its buffer and
/// its empty log through any run of keys.
pub proof fn lemma_read_only_session_is_fixed(session: ViewerView, keys: Seq<Key>)
    requires
        session.wf(),
        session.buffer.read_only,
        session.history.len() == 0,
    ensures
        session.after_keys(keys).buffer == session.buffer,
        session.after_keys(keys).history.len() == 0,
    decreases keys.len(),
{
    if keys.len() > 0 {
        let next = session.after_key(keys[0]).0;
        lemma_key_keeps_wf(session, keys[0]);
        assert(next.buffer == session.buffer && next.history.len() == 0);
        lemma_read_only_session_is_fixed(next, keys.drop_first());
    }
}

} // verus!
