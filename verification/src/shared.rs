//! The shared handle: one buffer behind one lock, reached by any number of
//! handles.

use vstd::prelude::*;
use std::sync::Arc;
use std::sync::Mutex;
use crate::lock::acquire;
use crate::lock::held;
use crate::lock::made_with;
use crate::lock::new_lock;
use crate::lock::share;
use crate::model::BufferModel;
use crate::model::lemma_line_excludes_terminator;
use crate::state::line_view;
use crate::state::BufferState;

verus! {

/// `std::io::Error`, opaque. The stream traits name it; no operation of this
/// crate returns one.
#[verifier::external_type_specification]
#[verifier::external_body]
pub struct ExIoError(std::io::Error);

/// The terminator of the lines that [`IoBuffer::lines`] yields.
pub const NEWLINE: u8 = 10;

/// A handle to a buffer that can be written and read at the same time.
/// Clones share the buffer and its cursor; every operation holds the
/// buffer's lock from start to end.
pub struct IoBuffer {
    inner: Arc<Mutex<BufferState>>,
}

impl IoBuffer {
    /// The value of the buffer when it was made. Handles that share the
    /// buffer agree on it; what the buffer holds now is for no contract to
    /// say.
    pub closed spec fn initial(&self) -> BufferModel {
        made_with(*self.inner)
    }

    /// A handle to a new buffer, which starts empty: nothing written, the
    /// cursor at 0.
    pub fn new() -> (buffer: Self)
        ensures
            buffer.initial() == BufferModel::empty(),
    {
        IoBuffer { inner: Arc::new(new_lock(BufferState::new())) }
    }

    /// Takes the next complete line, as [`BufferState::read_full_line`] does,
    /// from the buffer as it is when the lock is obtained: the bytes before
    /// the first `terminator`, without it. A partial line is left unread.
    ///
    /// Other handles may have written or read in the meantime, so the
    /// contract says what holds of the answer on every value of the buffer.
    pub fn read_full_line(&mut self, terminator: u8) -> (line: Option<Vec<u8>>)
        ensures
            exists|seen: BufferModel| line_view(line) == seen.line(terminator),
            line matches Some(bytes) ==> !bytes@.contains(terminator),
            *final(self) == *old(self),
    {
        let mut guard = acquire(&self.inner);
        let state = held(&mut guard);
        let ghost seen = state@;
        let line = state.read_full_line(terminator);
        proof {
            lemma_line_excludes_terminator(seen, terminator);
        }
        line
    }

    /// A reader of newline-terminated lines on the same buffer.
    pub fn lines(&mut self) -> (lines: Lines)
        ensures
            lines.source() == *old(self),
            *final(self) == *old(self),
    {
        Lines { source: self.clone() }
    }
}

impl Clone for IoBuffer {
    /// Another handle to the same buffer.
    fn clone(&self) -> (dup: Self)
        ensures
            dup == *self,
    {
        IoBuffer { inner: share(&self.inner) }
    }
}

impl Default for IoBuffer {
    /// A handle to a new, empty buffer, as [`IoBuffer::new`] gives.
    fn default() -> (buffer: Self)
        ensures
            buffer.initial() == BufferModel::empty(),
    {
        IoBuffer::new()
    }
}

impl std::io::Write for IoBuffer {
    /// Appends all of `buf`; always `Ok` of its length.
    fn write(&mut self, buf: &[u8]) -> (accepted: Result<usize, std::io::Error>)
        ensures
            accepted matches Ok(n) && n == buf@.len(),
            *final(self) == *old(self),
    {
        let mut guard = acquire(&self.inner);
        let state = held(&mut guard);
        Ok(state.write(buf))
    }

    /// Does nothing: written bytes are in the buffer at once.
    fn flush(&mut self) -> (done: Result<(), std::io::Error>)
        ensures
            done is Ok,
            *final(self) == *old(self),
    {
        Ok(())
    }
}

impl std::io::Read for IoBuffer {
    /// Reads as [`BufferState::read`] does, from the buffer as it is when the
    /// lock is obtained: pending bytes go to the front of `buf`, the rest of
    /// `buf` stays as it was. Always `Ok`; `Ok(0)` means that nothing is
    /// pending now, or that `buf` has no room, not that nothing will come.
    fn read(&mut self, buf: &mut [u8]) -> (copied: Result<usize, std::io::Error>)
        ensures
            copied is Ok,
            copied->Ok_0 <= old(buf)@.len(),
            final(buf)@.len() == old(buf)@.len(),
            final(buf)@.skip(copied->Ok_0 as int) == old(buf)@.skip(copied->Ok_0 as int),
            exists|seen: BufferModel|
                {
                    &&& copied->Ok_0 == seen.read_len(old(buf)@.len())
                    &&& final(buf)@.take(copied->Ok_0 as int) == seen.read_bytes(old(buf)@.len())
                },
            *final(self) == *old(self),
    {
        let mut guard = acquire(&self.inner);
        let state = held(&mut guard);
        Ok(state.read(buf))
    }
}

/// The complete newline-terminated lines of a buffer, one per request.
/// Nothing is read ahead: each request looks at the buffer as it then is, so
/// a request may find a line after an earlier one found none.
pub struct Lines {
    source: IoBuffer,
}

impl Lines {
    /// The handle that the lines are read through.
    pub closed spec fn source(&self) -> IoBuffer {
        self.source
    }

    /// The next complete line, or `None` while no complete line is pending.
    pub fn next(&mut self) -> (line: Option<Vec<u8>>)
        ensures
            exists|seen: BufferModel| line_view(line) == seen.line(NEWLINE),
            line matches Some(bytes) ==> !bytes@.contains(NEWLINE),
            final(self).source() == old(self).source(),
    {
        self.source.read_full_line(NEWLINE)
    }
}

} // verus!
