//! The single-owner buffer.

use vstd::prelude::*;
use vstd::slice::slice_subrange;
use vstd::slice::slice_to_vec;
use crate::model::BufferModel;
use crate::model::ends_line_at;
use crate::model::lemma_first_terminator_at;
use crate::model::lemma_first_terminator_none;

verus! {

/// The bytes of an optional line, as a sequence.
pub open spec fn line_view(line: Option<Vec<u8>>) -> Option<Seq<u8>> {
    match line {
        Some(bytes) => Some(bytes@),
        None => None,
    }
}

/// An append-only byte store with a read cursor.
///
/// Written bytes stay in place for good; reading only moves the cursor
/// forward, and the cursor never passes the end of what was written.
pub struct BufferState {
    content: Vec<u8>,
    cursor: usize,
}

impl View for BufferState {
    type V = BufferModel;

    closed spec fn view(&self) -> BufferModel {
        BufferModel {
            consumed: self.content@.take(self.cursor as int),
            pending: self.content@.skip(self.cursor as int),
        }
    }
}

impl BufferState {
    #[verifier::type_invariant]
    spec fn cursor_in_content(self) -> bool {
        self.cursor <= self.content@.len()
    }

    /// An empty buffer with its cursor at 0.
    pub fn new() -> (state: Self)
        ensures
            state@ == BufferModel::empty(),
    {
        let state = BufferState { content: Vec::new(), cursor: 0 };
        assert(state@.pending =~= Seq::<u8>::empty());
        state
    }

    /// Appends all of `bytes` and returns how many were accepted, which is
    /// always all of them.
    pub fn write(&mut self, bytes: &[u8]) -> (accepted: usize)
        ensures
            accepted == bytes@.len(),
            final(self)@ == old(self)@.write(bytes@),
    {
        // Growing the store may unwind where memory cannot be had. The parts
        // are moved out first and an empty buffer stands in, so that what is
        // left behind is a valid buffer even then.
        let mut taken = BufferState { content: Vec::new(), cursor: 0 };
        std::mem::swap(self, &mut taken);
        proof {
            use_type_invariant(&taken);
        }
        let BufferState { content, cursor } = taken;
        let mut content = content;
        content.extend_from_slice(bytes);
        *self = BufferState { content, cursor };
        assert(self@.consumed =~= old(self)@.consumed);
        assert(self@.pending =~= old(self)@.pending + bytes@);
        bytes.len()
    }

    /// Copies pending bytes to the front of `buf`, as many as are pending and
    /// fit, moves the cursor past them and returns their number. The rest of
    /// `buf` is left as it was. 0 means that nothing is pending now.
    pub fn read(&mut self, buf: &mut [u8]) -> (copied: usize)
        ensures
            copied == old(self)@.read_len(old(buf)@.len()),
            final(buf)@ == old(self)@.read_bytes(old(buf)@.len()) + old(buf)@.skip(copied as int),
            final(self)@ == old(self)@.read(old(buf)@.len()),
    {
        proof {
            use_type_invariant(&*self);
        }
        let available: usize = self.content.len() - self.cursor;
        let room: usize = buf.len();
        let count: usize = if available <= room { available } else { room };
        let start: usize = self.cursor;
        let mut i: usize = 0;
        while i < count
            invariant
                i <= count,
                count <= buf@.len(),
                buf@.len() == old(buf)@.len(),
                start + count <= self.content.len(),
                start == self.cursor,
                *self == *old(self),
                forall|j: int| 0 <= j < i ==> buf@[j] == self.content@[start + j],
                forall|j: int| i <= j < buf@.len() ==> buf@[j] == old(buf)@[j],
            decreases count - i,
        {
            buf[i] = self.content[start + i];
            i = i + 1;
        }
        self.cursor = start + count;
        assert(self@.consumed =~= old(self)@.read(old(buf)@.len()).consumed);
        assert(self@.pending =~= old(self)@.read(old(buf)@.len()).pending);
        count
    }

    /// Takes the next complete line: the pending bytes before the first
    /// `terminator`, without the terminator, which is consumed with them.
    /// While no terminator is pending the answer is `None` and nothing is
    /// consumed; an empty line is `Some` of no bytes.
    pub fn read_full_line(&mut self, terminator: u8) -> (line: Option<Vec<u8>>)
        ensures
            line_view(line) == old(self)@.line(terminator),
            final(self)@ == old(self)@.after_line(terminator),
            match line {
                Some(bytes) => {
                    &&& ends_line_at(old(self)@.pending, terminator, bytes@.len() as int)
                    &&& bytes@ == old(self)@.pending.take(bytes@.len() as int)
                    &&& final(self)@ == old(self)@.advance(bytes@.len() + 1)
                },
                None => {
                    &&& !old(self)@.pending.contains(terminator)
                    &&& final(self)@ == old(self)@
                },
            },
    {
        proof {
            use_type_invariant(&*self);
        }
        let start: usize = self.cursor;
        let end: usize = self.content.len();
        let ghost pending = self@.pending;
        let mut at: usize = start;
        while at < end && self.content[at] != terminator
            invariant
                start <= at <= end,
                end == self.content.len(),
                start == self.cursor,
                pending == self@.pending,
                forall|j: int| 0 <= j < at - start ==> pending[j] != terminator,
            decreases end - at,
        {
            at = at + 1;
        }
        if at == end {
            proof {
                lemma_first_terminator_none(pending, terminator);
            }
            return None;
        }
        proof {
            lemma_first_terminator_at(pending, terminator, at - start);
        }
        let line: Vec<u8> = slice_to_vec(slice_subrange(self.content.as_slice(), start, at));
        self.cursor = at + 1;
        assert(self@.consumed =~= old(self)@.after_line(terminator).consumed);
        assert(self@.pending =~= old(self)@.after_line(terminator).pending);
        Some(line)
    }
}

} // verus!
