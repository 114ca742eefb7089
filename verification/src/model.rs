//! The mathematical value of a buffer and of each operation on it.

use vstd::prelude::*;

verus! {

/// `k` is the place of the first `terminator` in `pending`.
pub open spec fn ends_line_at(pending: Seq<u8>, terminator: u8, k: int) -> bool {
    &&& 0 <= k < pending.len()
    &&& pending[k] == terminator
    &&& forall|j: int| 0 <= j < k ==> pending[j] != terminator
}

/// The place of the first `terminator` in `pending`, if it holds one.
pub open spec fn first_terminator(pending: Seq<u8>, terminator: u8) -> Option<int> {
    if exists|k: int| ends_line_at(pending, terminator, k) {
        Some(choose|k: int| ends_line_at(pending, terminator, k))
    } else {
        None
    }
}

/// A buffer as two byte sequences: the bytes already handed out and the bytes
/// written but not yet handed out. All bytes ever written are `consumed`
/// followed by `pending`; the cursor is the length of `consumed`.
pub struct BufferModel {
    pub consumed: Seq<u8>,
    pub pending: Seq<u8>,
}

impl BufferModel {
    /// The buffer into which nothing was written.
    pub open spec fn empty() -> Self {
        BufferModel { consumed: Seq::empty(), pending: Seq::empty() }
    }

    /// Every byte written so far, in the order of writing.
    pub open spec fn content(self) -> Seq<u8> {
        self.consumed + self.pending
    }

    /// The offset into `content` that separates consumed from pending bytes.
    pub open spec fn cursor(self) -> nat {
        self.consumed.len()
    }

    /// The buffer after `bytes` were appended.
    pub open spec fn write(self, bytes: Seq<u8>) -> Self {
        BufferModel { consumed: self.consumed, pending: self.pending + bytes }
    }

    /// The buffer after the first `n` pending bytes were consumed.
    pub open spec fn advance(self, n: nat) -> Self
        recommends
            n <= self.pending.len(),
    {
        BufferModel {
            consumed: self.consumed + self.pending.take(n as int),
            pending: self.pending.skip(n as int),
        }
    }

    /// How many bytes a read into room for `capacity` bytes copies.
    pub open spec fn read_len(self, capacity: nat) -> nat {
        if self.pending.len() <= capacity {
            self.pending.len()
        } else {
            capacity
        }
    }

    /// The bytes that a read into room for `capacity` bytes copies.
    pub open spec fn read_bytes(self, capacity: nat) -> Seq<u8> {
        self.pending.take(self.read_len(capacity) as int)
    }

    /// The buffer after a read into room for `capacity` bytes.
    pub open spec fn read(self, capacity: nat) -> Self {
        self.advance(self.read_len(capacity))
    }

    /// The line that a request with `terminator` yields: the pending bytes
    /// before the first terminator, or nothing while no terminator is pending.
    pub open spec fn line(self, terminator: u8) -> Option<Seq<u8>> {
        match first_terminator(self.pending, terminator) {
            Some(k) => Some(self.pending.take(k)),
            None => None,
        }
    }

    /// The buffer after a line request with `terminator`: the line and its
    /// terminator are consumed, and a partial line stays pending.
    pub open spec fn after_line(self, terminator: u8) -> Self {
        match first_terminator(self.pending, terminator) {
            Some(k) => self.advance((k + 1) as nat),
            None => self,
        }
    }
}

/// A first terminator is found exactly where `ends_line_at` holds.
pub proof fn lemma_first_terminator_at(pending: Seq<u8>, terminator: u8, k: int)
    requires
        ends_line_at(pending, terminator, k),
    ensures
        first_terminator(pending, terminator) == Some(k),
{
    // Each of the two places holds the terminator and has none before it,
    // so neither lies before the other.
    let found = choose|i: int| ends_line_at(pending, terminator, i);
    assert(ends_line_at(pending, terminator, found));
    assert(found == k);
}

/// No first terminator is found exactly when the terminator does not occur.
pub proof fn lemma_first_terminator_none(pending: Seq<u8>, terminator: u8)
    ensures
        first_terminator(pending, terminator) is None <==> !pending.contains(terminator),
{
    if pending.contains(terminator) {
        let i = choose|i: int| 0 <= i < pending.len() && pending[i] == terminator;
        lemma_least_terminator(pending, terminator, i);
    }
}

/// Where the terminator occurs at all, it occurs at a first place.
proof fn lemma_least_terminator(pending: Seq<u8>, terminator: u8, i: int)
    requires
        0 <= i < pending.len(),
        pending[i] == terminator,
    ensures
        exists|k: int| ends_line_at(pending, terminator, k),
    decreases i,
{
    if exists|j: int| 0 <= j < i && pending[j] == terminator {
        let j = choose|j: int| 0 <= j < i && pending[j] == terminator;
        lemma_least_terminator(pending, terminator, j);
    } else {
        assert(ends_line_at(pending, terminator, i));
    }
}

/// A line never holds its terminator.
pub proof fn lemma_line_excludes_terminator(buffer: BufferModel, terminator: u8)
    ensures
        buffer.line(terminator) matches Some(line) ==> !line.contains(terminator),
{
    if let Some(k) = first_terminator(buffer.pending, terminator) {
        assert(ends_line_at(buffer.pending, terminator, k));
    }
}

} // verus!
