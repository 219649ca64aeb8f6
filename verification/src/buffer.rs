//! The byte buffer of a session: the working copy that edits change, the
//! baseline that it is compared with, and the name it is shown under.

use vstd::prelude::*;
use vstd::string::StringExecFns;

verus! {

/// What a `ByteBuffer` holds, as plain mathematical values.
pub struct BufferView {
    pub working: Seq<u8>,
    pub baseline: Seq<u8>,
    pub display_name: Seq<char>,
    pub read_only: bool,
}

impl BufferView {
    /// Edits write in place, so both copies always have one length.
    pub open spec fn wf(self) -> bool {
        self.working.len() == self.baseline.len()
    }

    /// The working copy differs from the baseline.
    pub open spec fn dirty(self) -> bool {
        self.working != self.baseline
    }

    /// The buffer with `value` written at `offset` of the working copy; the
    /// buffer as it is where `offset` lies past the end.
    pub open spec fn written(self, offset: int, value: u8) -> BufferView {
        if 0 <= offset < self.working.len() {
            BufferView { working: self.working.update(offset, value), ..self }
        } else {
            self
        }
    }

    /// The buffer after a save under `path`: the working copy is the new
    /// baseline and `path` the new name.
    pub open spec fn saved(self, path: Seq<char>) -> BufferView {
        BufferView { baseline: self.working, display_name: path, ..self }
    }
}

/// The name of a buffer that was created rather than loaded.
pub open spec fn untitled() -> Seq<char> {
    "untitled"@
}

/// The bytes of one session.
pub struct ByteBuffer {
    working: Vec<u8>,
    baseline: Vec<u8>,
    display_name: String,
    read_only: bool,
}

impl View for ByteBuffer {
    type V = BufferView;

    closed spec fn view(&self) -> BufferView {
        BufferView {
            working: self.working@,
            baseline: self.baseline@,
            display_name: self.display_name@,
            read_only: self.read_only,
        }
    }
}

fn copy_bytes(bytes: &Vec<u8>) -> (copy: Vec<u8>)
    ensures
        copy@ == bytes@,
{
    let mut copy: Vec<u8> = Vec::with_capacity(bytes.len());
    let mut i: usize = 0;
    while i < bytes.len()
        invariant
            i <= bytes.len(),
            copy@ == bytes@.subrange(0, i as int),
        decreases bytes.len() - i,
    {
        copy.push(bytes[i]);
        i = i + 1;
    }
    assert(bytes@.subrange(0, bytes@.len() as int) == bytes@);
    copy
}

impl ByteBuffer {
    /// A buffer over bytes that were loaded: clean, under the given name.
    pub fn load(bytes: Vec<u8>, display_name: &str, read_only: bool) -> (buffer: ByteBuffer)
        ensures
            buffer@ == (BufferView {
                working: bytes@,
                baseline: bytes@,
                display_name: display_name@,
                read_only,
            }),
            buffer@.wf(),
            !buffer@.dirty(),
    {
        let baseline: Vec<u8> = copy_bytes(&bytes);
        ByteBuffer {
            working: bytes,
            baseline,
            display_name: String::from_str(display_name),
            read_only,
        }
    }

    /// A fresh buffer of `length` zero bytes: clean, named `untitled`.
    pub fn zeroed(length: usize, read_only: bool) -> (buffer: ByteBuffer)
        ensures
            buffer@ == (BufferView {
                working: Seq::new(length as nat, |i: int| 0u8),
                baseline: Seq::new(length as nat, |i: int| 0u8),
                display_name: untitled(),
                read_only,
            }),
            buffer@.wf(),
            !buffer@.dirty(),
    {
        let mut bytes: Vec<u8> = Vec::with_capacity(length);
        let mut i: usize = 0;
        while i < length
            invariant
                i <= length,
                bytes@ == Seq::new(i as nat, |k: int| 0u8),
            decreases length - i,
        {
            bytes.push(0u8);
            i = i + 1;
        }
        ByteBuffer::load(bytes, "untitled", read_only)
    }

    /// The number of bytes.
    pub fn len(&self) -> (n: usize)
        ensures
            n == self@.working.len(),
    {
        self.working.len()
    }

    /// The byte at `offset`, or `None` past the end.
    pub fn get(&self, offset: usize) -> (byte: Option<u8>)
        ensures
            byte == (if offset < self@.working.len() {
                Some(self@.working[offset as int])
            } else {
                None
            }),
    {
        if offset < self.working.len() {
            Some(self.working[offset])
        } else {
            None
        }
    }

    /// The working copy.
    pub fn working(&self) -> (bytes: &Vec<u8>)
        ensures
            bytes@ == self@.working,
    {
        &self.working
    }

    /// The baseline.
    pub fn baseline(&self) -> (bytes: &Vec<u8>)
        ensures
            bytes@ == self@.baseline,
    {
        &self.baseline
    }

    /// The name the buffer is shown under.
    pub fn display_name(&self) -> (name: &str)
        ensures
            name@ == self@.display_name,
    {
        self.display_name.as_str()
    }

    /// Whether the session may change or save the buffer.
    pub fn is_read_only(&self) -> (read_only: bool)
        ensures
            read_only == self@.read_only,
    {
        self.read_only
    }

    /// Whether the working copy differs from the baseline.
    pub fn is_dirty(&self) -> (dirty: bool)
        ensures
            dirty == self@.dirty(),
    {
        if self.working.len() != self.baseline.len() {
            return true;
        }
        let mut i: usize = 0;
        while i < self.working.len()
            invariant
                i <= self.working.len(),
                self.working.len() == self.baseline.len(),
                self.working@.subrange(0, i as int) == self.baseline@.subrange(0, i as int),
            decreases self.working.len() - i,
        {
            if self.working[i] != self.baseline[i] {
                return true;
            }
            proof {
                let (w, b) = (self.working@, self.baseline@);
                assert(w.subrange(0, i + 1) == w.subrange(0, i as int).push(w[i as int]));
                assert(b.subrange(0, i + 1) == b.subrange(0, i as int).push(b[i as int]));
            }
            i = i + 1;
        }
        proof {
            let (w, b) = (self.working@, self.baseline@);
            assert(w.subrange(0, w.len() as int) == w);
            assert(b.subrange(0, b.len() as int) == b);
        }
        false
    }

    /// Writes `value` at `offset` in the working copy and returns the byte
    /// that stood there; past the end nothing is written and the result is
    /// `None`. The baseline, the name and the flag stay.
    pub fn write(&mut self, offset: usize, value: u8) -> (previous: Option<u8>)
        ensures
            previous == (if offset < old(self)@.working.len() {
                Some(old(self)@.working[offset as int])
            } else {
                None
            }),
            final(self)@ == old(self)@.written(offset as int, value),
            final(self)@.wf() == old(self)@.wf(),
    {
        if offset < self.working.len() {
            let previous: u8 = self.working[offset];
            self.working.set(offset, value);
            Some(previous)
        } else {
            None
        }
    }

    /// Records a save under `path`: the working copy becomes the baseline,
    /// so the buffer is clean, and `path` becomes its name.
    pub fn mark_saved(&mut self, path: &str)
        ensures
            final(self)@ == old(self)@.saved(path@),
            final(self)@.wf(),
            !final(self)@.dirty(),
    {
        self.baseline = copy_bytes(&self.working);
        self.display_name = String::from_str(path);
    }
}

} // verus!
