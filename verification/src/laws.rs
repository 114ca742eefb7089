//! What holds of every buffer and of every sequence of operations on it.
//!
//! The laws are stated over [`BufferModel`], the value that the contracts of
//! [`BufferState`](crate::state::BufferState) speak of, so each of them holds
//! of every run of the executable operations.

use vstd::prelude::*;
use crate::model::BufferModel;
use crate::model::ends_line_at;
use crate::model::first_terminator;
use crate::model::lemma_first_terminator_at;
use crate::model::lemma_first_terminator_none;

verus! {

/// One operation on a buffer.
pub enum Op {
    /// Appending the given bytes.
    Write(Seq<u8>),
    /// Reading into room for the given number of bytes.
    Read(nat),
    /// Requesting a line that ends with the given terminator.
    ReadLine(u8),
}

impl Op {
    /// The buffer after this operation.
    pub open spec fn apply(self, buffer: BufferModel) -> BufferModel {
        match self {
            Op::Write(bytes) => buffer.write(bytes),
            Op::Read(capacity) => buffer.read(capacity),
            Op::ReadLine(terminator) => buffer.after_line(terminator),
        }
    }

    /// The bytes that this operation appends.
    pub open spec fn appended(self) -> Seq<u8> {
        match self {
            Op::Write(bytes) => bytes,
            _ => Seq::empty(),
        }
    }

    /// How many pending bytes this operation consumes on `buffer`: the bytes
    /// that a read returns, or a line together with its terminator.
    pub open spec fn taken(self, buffer: BufferModel) -> nat {
        match self {
            Op::Write(_) => 0,
            Op::Read(capacity) => buffer.read_len(capacity),
            Op::ReadLine(terminator) => match buffer.line(terminator) {
                Some(line) => line.len() + 1,
                None => 0,
            },
        }
    }
}

/// The buffer after `ops`, carried out in order on `buffer`.
pub open spec fn run(buffer: BufferModel, ops: Seq<Op>) -> BufferModel
    decreases ops.len(),
{
    if ops.len() == 0 {
        buffer
    } else {
        ops.last().apply(run(buffer, ops.drop_last()))
    }
}

/// All the bytes that `ops` append, in order.
pub open spec fn all_appended(ops: Seq<Op>) -> Seq<u8>
    decreases ops.len(),
{
    if ops.len() == 0 {
        Seq::empty()
    } else {
        all_appended(ops.drop_last()) + ops.last().appended()
    }
}

/// How many bytes `ops`, carried out in order on `buffer`, consume in all.
pub open spec fn total_taken(buffer: BufferModel, ops: Seq<Op>) -> nat
    decreases ops.len(),
{
    if ops.len() == 0 {
        0
    } else {
        total_taken(buffer, ops.drop_last()) + ops.last().taken(run(buffer, ops.drop_last()))
    }
}

/// The buffer after each of `writes` was appended in order.
pub open spec fn after_writes(buffer: BufferModel, writes: Seq<Seq<u8>>) -> BufferModel
    decreases writes.len(),
{
    if writes.len() == 0 {
        buffer
    } else {
        after_writes(buffer, writes.drop_last()).write(writes.last())
    }
}

/// One operation leaves every byte written so far in place and adds what it
/// appends at the end. It consumes no more than is pending, and exactly that
/// many bytes pass from the front of the pending bytes to the consumed ones.
pub proof fn law_step(buffer: BufferModel, op: Op)
    ensures
        op.apply(buffer).content() == buffer.content() + op.appended(),
        op.taken(buffer) <= buffer.pending.len(),
        op.apply(buffer).consumed == buffer.consumed + buffer.pending.take(
            op.taken(buffer) as int,
        ),
        op.apply(buffer).pending == buffer.pending.skip(op.taken(buffer) as int) + op.appended(),
        op.apply(buffer).cursor() == buffer.cursor() + op.taken(buffer),
{
    if let Op::ReadLine(terminator) = op {
        if let Some(k) = first_terminator(buffer.pending, terminator) {
            assert(ends_line_at(buffer.pending, terminator, k));
        }
    }
}

/// Over any sequence of operations the content only grows, by the appended
/// bytes in their order, and the cursor only moves forward, by exactly the
/// bytes that reads returned and line requests consumed, and never past the
/// end of the content. So what was once consumed stays consumed, and what is
/// pending afterwards is what was pending before and all that was written,
/// less all that was consumed.
pub proof fn law_cursor_monotone(buffer: BufferModel, ops: Seq<Op>)
    ensures
        run(buffer, ops).content() == buffer.content() + all_appended(ops),
        run(buffer, ops).cursor() == buffer.cursor() + total_taken(buffer, ops),
        run(buffer, ops).cursor() <= run(buffer, ops).content().len(),
        buffer.consumed.is_prefix_of(run(buffer, ops).consumed),
        buffer.content().is_prefix_of(run(buffer, ops).content()),
        run(buffer, ops).pending.len() + total_taken(buffer, ops) == buffer.pending.len()
            + all_appended(ops).len(),
    decreases ops.len(),
{
    if ops.len() > 0 {
        law_cursor_monotone(buffer, ops.drop_last());
        law_step(run(buffer, ops.drop_last()), ops.last());
    }
}

/// On a buffer that starts empty, the bytes consumed by reads and by line
/// requests never exceed the bytes written.
pub proof fn law_taken_within_written(ops: Seq<Op>)
    ensures
        total_taken(BufferModel::empty(), ops) <= all_appended(ops).len(),
        run(BufferModel::empty(), ops).content() == all_appended(ops),
{
    law_cursor_monotone(BufferModel::empty(), ops);
}

/// As long as nothing is written, a new buffer stays empty: every read
/// returns no bytes and every line request finds no line, however many of
/// them came before.
pub proof fn law_unwritten_stays_empty(ops: Seq<Op>, capacity: nat, terminator: u8)
    requires
        forall|i: int| 0 <= i < ops.len() ==> !(ops[i] is Write),
    ensures
        run(BufferModel::empty(), ops) == BufferModel::empty(),
        run(BufferModel::empty(), ops).read_len(capacity) == 0,
        run(BufferModel::empty(), ops).read_bytes(capacity) == Seq::<u8>::empty(),
        run(BufferModel::empty(), ops).line(terminator) is None,
    decreases ops.len(),
{
    let empty = BufferModel::empty();
    assert forall|t: u8| first_terminator(empty.pending, t) is None by {
        lemma_first_terminator_none(empty.pending, t);
    }
    if ops.len() > 0 {
        law_unwritten_stays_empty(ops.drop_last(), capacity, terminator);
    }
}

/// Appending `writes` one after the other is appending their concatenation.
pub proof fn law_writes_concatenate(buffer: BufferModel, writes: Seq<Seq<u8>>)
    ensures
        after_writes(buffer, writes) == buffer.write(writes.flatten()),
    decreases writes.len(),
{
    if writes.len() > 0 {
        let front = writes.drop_last();
        law_writes_concatenate(buffer, front);
        front.lemma_flatten_push(writes.last());
        assert(front.push(writes.last()) =~= writes);
        assert(after_writes(buffer, writes).pending =~= buffer.pending + writes.flatten());
    }
}

/// After any sequence of writes, a read with room for everything returns
/// what was pending before, followed by the writes in their order, and
/// leaves nothing pending. On a new buffer that is exactly the concatenation
/// of the writes.
pub proof fn law_round_trip(buffer: BufferModel, writes: Seq<Seq<u8>>, capacity: nat)
    requires
        capacity >= buffer.pending.len() + writes.flatten().len(),
    ensures
        after_writes(buffer, writes).read_bytes(capacity) == buffer.pending + writes.flatten(),
        after_writes(buffer, writes).read(capacity).pending == Seq::<u8>::empty(),
        after_writes(BufferModel::empty(), writes).read_bytes(writes.flatten().len())
            == writes.flatten(),
{
    law_writes_concatenate(buffer, writes);
    law_writes_concatenate(BufferModel::empty(), writes);
}

/// Appending no bytes leaves the buffer as it was.
pub proof fn law_empty_write(buffer: BufferModel)
    ensures
        buffer.write(Seq::<u8>::empty()) == buffer,
{
}

/// A read with room for no bytes returns none and leaves the buffer as it
/// was.
pub proof fn law_read_without_room(buffer: BufferModel)
    ensures
        buffer.read_len(0) == 0,
        buffer.read_bytes(0) == Seq::<u8>::empty(),
        buffer.read(0) == buffer,
{
    assert(buffer.read(0).pending =~= buffer.pending);
}

/// Where the terminator is the very next pending byte, the line is there and
/// has no bytes, which is not the answer "no line"; the request consumes
/// that one byte.
pub proof fn law_empty_line(buffer: BufferModel, terminator: u8)
    requires
        buffer.pending.len() > 0,
        buffer.pending[0] == terminator,
    ensures
        buffer.line(terminator) == Some(Seq::<u8>::empty()),
        buffer.after_line(terminator) == buffer.advance(1),
{
    lemma_first_terminator_at(buffer.pending, terminator, 0);
}

/// While no terminator is pending, a line request yields nothing and changes
/// nothing; once bytes that hold a terminator are appended, the line is what
/// was pending before, followed by the new bytes up to their first
/// terminator.
pub proof fn law_partial_line_kept(buffer: BufferModel, terminator: u8, bytes: Seq<u8>, k: int)
    requires
        !buffer.pending.contains(terminator),
        ends_line_at(bytes, terminator, k),
    ensures
        buffer.line(terminator) is None,
        buffer.after_line(terminator) == buffer,
        buffer.write(bytes).line(terminator) == Some(buffer.pending + bytes.take(k)),
        buffer.write(bytes).after_line(terminator).pending == bytes.skip(k + 1),
{
    lemma_first_terminator_none(buffer.pending, terminator);
    let joined = buffer.write(bytes).pending;
    let at = buffer.pending.len() + k;
    assert(ends_line_at(joined, terminator, at));
    lemma_first_terminator_at(joined, terminator, at);
}

} // verus!
