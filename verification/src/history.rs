//! The undo log: one entry per edit, newest last.

use vstd::prelude::*;
use crate::buffer::{BufferView, ByteBuffer};

verus! {

/// What an edit leaves behind: the working copy with the new byte, and the
/// log with one more entry that holds the offset and the byte that stood
/// there.
pub open spec fn edited(working: Seq<u8>, log: Seq<(usize, u8)>, offset: int, value: u8) -> (
    Seq<u8>,
    Seq<(usize, u8)>,
) {
    (working.update(offset, value), log.push((offset as usize, working[offset])))
}

/// What an undo leaves behind: nothing changes where the log is empty;
/// otherwise the newest entry is gone and its byte is back at its offset. An
/// entry whose offset lies past the end of the working copy goes without a
/// byte being written.
pub open spec fn undone(working: Seq<u8>, log: Seq<(usize, u8)>) -> (Seq<u8>, Seq<(usize, u8)>) {
    if log.len() == 0 {
        (working, log)
    } else if log.last().0 < working.len() {
        (working.update(log.last().0 as int, log.last().1), log.drop_last())
    } else {
        (working, log.drop_last())
    }
}

/// The offset that an undo restores: that of the newest entry, where there is
/// one and it names an offset of the working copy.
pub open spec fn undo_target(working: Seq<u8>, log: Seq<(usize, u8)>) -> Option<usize> {
    if log.len() > 0 && log.last().0 < working.len() {
        Some(log.last().0)
    } else {
        None
    }
}

/// Every entry of the log names an offset below `length`.
pub open spec fn log_within(log: Seq<(usize, u8)>, length: int) -> bool {
    forall|k: int| 0 <= k < log.len() ==> (#[trigger] log[k]).0 < length
}

/// Some entry of the log names `offset`.
pub open spec fn log_names(log: Seq<(usize, u8)>, offset: int) -> bool {
    exists|k: int| 0 <= k < log.len() && (#[trigger] log[k]).0 == offset
}

/// The undo log of one session.
pub struct EditHistory {
    entries: Vec<(usize, u8)>,
}

impl View for EditHistory {
    type V = Seq<(usize, u8)>;

    closed spec fn view(&self) -> Seq<(usize, u8)> {
        self.entries@
    }
}

impl EditHistory {
    /// An empty log.
    pub fn new() -> (history: EditHistory)
        ensures
            history@ == Seq::<(usize, u8)>::empty(),
    {
        EditHistory { entries: Vec::new() }
    }

    /// The number of entries.
    pub fn len(&self) -> (n: usize)
        ensures
            n == self@.len(),
    {
        self.entries.len()
    }

    /// Whether the log holds no entry.
    pub fn is_empty(&self) -> (empty: bool)
        ensures
            empty == (self@.len() == 0),
    {
        self.entries.len() == 0
    }

    /// Appends an entry. Entries are never merged.
    pub fn push(&mut self, offset: usize, previous_value: u8)
        ensures
            final(self)@ == old(self)@.push((offset, previous_value)),
    {
        self.entries.push((offset, previous_value));
    }

    /// Whether some entry names `offset`.
    pub fn names(&self, offset: usize) -> (found: bool)
        ensures
            found == log_names(self@, offset as int),
    {
        let mut i: usize = 0;
        while i < self.entries.len()
            invariant
                i <= self.entries.len(),
                forall|k: int| 0 <= k < i ==> (#[trigger] self.entries@[k]).0 != offset,
            decreases self.entries.len() - i,
        {
            if self.entries[i].0 == offset {
                return true;
            }
            i = i + 1;
        }
        false
    }

    /// Takes the newest entry off the log, writes its byte back into the
    /// working copy of `buffer`, and returns its offset; with an empty log
    /// nothing changes and the result is `None`. The baseline is never
    /// touched.
    pub fn pop_and_restore(&mut self, buffer: &mut ByteBuffer) -> (offset: Option<usize>)
        ensures
            (final(buffer)@.working, final(self)@) == undone(old(buffer)@.working, old(self)@),
            final(buffer)@ == (BufferView { working: final(buffer)@.working, ..old(buffer)@ }),
            final(buffer)@.wf() == old(buffer)@.wf(),
            offset == undo_target(old(buffer)@.working, old(self)@),
    {
        match self.entries.pop() {
            Some((offset, previous_value)) => {
                match buffer.write(offset, previous_value) {
                    Some(_) => Some(offset),
                    None => None,
                }
            },
            None => None,
        }
    }
}

/// Undo takes back the newest edit: after an edit at any offset of the buffer
/// with any byte, an undo gives back the working copy and the log as they
/// were before the edit.
pub proof fn lemma_undo_inverts_edit(working: Seq<u8>, log: Seq<(usize, u8)>, offset: usize, value: u8)
    requires
        offset < working.len(),
    ensures
        undone(edited(working, log, offset as int, value).0, edited(working, log, offset as int, value).1)
            == (working, log),
        undone(edited(working, log, offset as int, value).0, edited(working, log, offset as int, value).1).0[offset as int]
            == working[offset as int],
        log.len() == 0 ==> undone(
            edited(working, log, offset as int, value).0,
            edited(working, log, offset as int, value).1,
        ).1.len() == 0,
{
    let after = edited(working, log, offset as int, value);
    assert(after.1.drop_last() == log);
    assert(after.0.update(offset as int, working[offset as int]) == working);
}

/// An edit at an offset of the buffer keeps the log within the buffer.
pub proof fn lemma_edit_keeps_log_within(working: Seq<u8>, log: Seq<(usize, u8)>, offset: usize, value: u8)
    requires
        log_within(log, working.len() as int),
        offset < working.len(),
    ensures
        log_within(edited(working, log, offset as int, value).1, working.len() as int),
        edited(working, log, offset as int, value).0.len() == working.len(),
{
}

/// An undo keeps the log within the buffer and the buffer at its length.
pub proof fn lemma_undo_keeps_log_within(working: Seq<u8>, log: Seq<(usize, u8)>)
    requires
        log_within(log, working.len() as int),
    ensures
        log_within(undone(working, log).1, working.len() as int),
        undone(working, log).0.len() == working.len(),
{
}

} // verus!
