//! The chunk: instruction bytes, one source line per byte, and a constant
//! pool. A chunk only ever grows by appending.

use vstd::prelude::*;
use crate::value::{Value, ValueArray};

verus! {

/// The most constants a chunk can hold: an index must fit in one byte.
pub const MAX_CONSTANTS: usize = 256;

/// Why a chunk refused to grow.
#[derive(Debug, PartialEq, Eq, Structural, Clone, Copy)]
pub enum ChunkError {
    /// The constant pool already holds `MAX_CONSTANTS` values.
    CapacityExceeded,
}

/// A compiled program unit.
pub struct Chunk {
    pub code: Vec<u8>,
    pub constants: ValueArray,
    pub lines: Vec<u64>,
}

/// The result of appending `bytes`, one at a time, to `code`.
pub open spec fn after_writes<T>(code: Seq<T>, bytes: Seq<T>) -> Seq<T>
    decreases bytes.len(),
{
    if bytes.len() == 0 {
        code
    } else {
        after_writes(code, bytes.drop_last()).push(bytes.last())
    }
}

/// Writing `n` bytes (or lines) one by one leaves exactly the old contents
/// followed by those `n` items, in the order in which they were written.
pub proof fn lemma_writes_in_order<T>(code: Seq<T>, bytes: Seq<T>)
    ensures
        after_writes(code, bytes) == code + bytes,
        after_writes(code, bytes).len() == code.len() + bytes.len(),
    decreases bytes.len(),
{
    if bytes.len() > 0 {
        lemma_writes_in_order(code, bytes.drop_last());
        assert(code + bytes == (code + bytes.drop_last()).push(bytes.last()));
    } else {
        assert(code + bytes == code);
    }
}

impl Chunk {
    /// Every byte has its line: the two tables have the same length.
    pub open spec fn wf(&self) -> bool {
        self.code@.len() == self.lines@.len()
    }

    /// An empty chunk: no code, no lines, no constants.
    pub fn new() -> (r: Self)
        ensures
            r.code@ == Seq::<u8>::empty(),
            r.lines@ == Seq::<u64>::empty(),
            r.constants.values@ == Seq::<Value>::empty(),
            r.wf(),
    {
        Chunk { code: Vec::new(), constants: ValueArray::new(), lines: Vec::new() }
    }

    /// Appends one byte (an opcode or an operand) with its source line.
    pub fn write_chunk(&mut self, byte: u8, line: u64)
        ensures
            final(self).code@ == old(self).code@.push(byte),
            final(self).lines@ == old(self).lines@.push(line),
            final(self).constants == old(self).constants,
            old(self).wf() ==> final(self).wf(),
    {
        self.code.push(byte);
        self.lines.push(line);
    }

    /// Adds `constant` to the pool and returns its index, or fails when the
    /// pool is full, leaving the chunk unchanged.
    pub fn write_constant(&mut self, constant: Value) -> (r: Result<u8, ChunkError>)
        ensures
            old(self).constants.values@.len() < MAX_CONSTANTS ==> {
                &&& r == Ok::<u8, ChunkError>(old(self).constants.values@.len() as u8)
                &&& final(self).constants.values@ == old(self).constants.values@.push(constant)
                &&& final(self).code == old(self).code
                &&& final(self).lines == old(self).lines
            },
            old(self).constants.values@.len() >= MAX_CONSTANTS ==> {
                &&& r == Err::<u8, ChunkError>(ChunkError::CapacityExceeded)
                &&& *final(self) == *old(self)
            },
    {
        let count: usize = self.constants.count();
        if count >= MAX_CONSTANTS {
            return Err(ChunkError::CapacityExceeded);
        }
        self.constants.write_value(constant);
        Ok(count as u8)
    }
}

} // verus!
