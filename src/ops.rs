//! The opcode vocabulary: one byte per instruction, numbered contiguously
//! from zero in declaration order. New opcodes are appended at the end.

use vstd::prelude::*;

verus! {

/// Return from the chunk with the value on top of the stack.
pub const OP_RETURN: u8 = 0;

/// Push a constant of the pool; the next byte is its index.
pub const OP_CONSTANT: u8 = 1;

/// Replace the top of the stack by its negation.
pub const OP_NEGATE: u8 = 2;

/// Pop `b`, pop `a`, push `a + b`.
pub const OP_ADD: u8 = 3;

/// Pop `b`, pop `a`, push `a - b`.
pub const OP_SUBTRACT: u8 = 4;

/// Pop `b`, pop `a`, push `a * b`.
pub const OP_MULTIPLY: u8 = 5;

/// Pop `b`, pop `a`, push `a / b`.
pub const OP_DIVIDE: u8 = 6;

/// The number of defined opcodes; every byte below it is one.
pub const OP_COUNT: u8 = 7;

/// Whether `byte` names one of the defined opcodes.
pub open spec fn is_opcode(byte: u8) -> bool {
    byte < OP_COUNT
}

/// Whether `op` pops two operands and pushes one result.
pub open spec fn is_binary(op: u8) -> bool {
    op == OP_ADD || op == OP_SUBTRACT || op == OP_MULTIPLY || op == OP_DIVIDE
}

/// The mnemonic under which the disassembler lists a defined opcode.
pub open spec fn mnemonic_of(op: u8) -> Seq<char> {
    if op == OP_RETURN {
        "OP_RETURN"@
    } else if op == OP_CONSTANT {
        "OP_CONSTANT"@
    } else if op == OP_NEGATE {
        "OP_NEGATE"@
    } else if op == OP_ADD {
        "OP_ADD"@
    } else if op == OP_SUBTRACT {
        "OP_SUBTRACT"@
    } else if op == OP_MULTIPLY {
        "OP_MULTIPLY"@
    } else {
        "OP_DIVIDE"@
    }
}

/// The opcodes are numbered `0, 1, ..., 6` in declaration order, each byte
/// value is used once, and a byte is an opcode exactly when it lies in that
/// contiguous range.
pub proof fn lemma_opcode_numbering()
    ensures
        OP_RETURN == 0,
        OP_CONSTANT == OP_RETURN + 1,
        OP_NEGATE == OP_CONSTANT + 1,
        OP_ADD == OP_NEGATE + 1,
        OP_SUBTRACT == OP_ADD + 1,
        OP_MULTIPLY == OP_SUBTRACT + 1,
        OP_DIVIDE == OP_MULTIPLY + 1,
        OP_COUNT == OP_DIVIDE + 1,
        forall|b: u8| is_opcode(b) <==> OP_RETURN <= b <= OP_DIVIDE,
        forall|a: u8, b: u8|
            is_opcode(a) && is_opcode(b) && a != b ==> #[trigger] mnemonic_of(a)
                != #[trigger] mnemonic_of(b),
{
    reveal_strlit("OP_RETURN");
    reveal_strlit("OP_CONSTANT");
    reveal_strlit("OP_NEGATE");
    reveal_strlit("OP_ADD");
    reveal_strlit("OP_SUBTRACT");
    reveal_strlit("OP_MULTIPLY");
    reveal_strlit("OP_DIVIDE");
    assert forall|a: u8, b: u8|
        is_opcode(a) && is_opcode(b) && a != b implies #[trigger] mnemonic_of(a)
            != #[trigger] mnemonic_of(b) by {
        // the fourth character alone tells the mnemonics apart
        assert(mnemonic_of(a)[3] != mnemonic_of(b)[3]);
    }
}

/// Whether `byte` names one of the defined opcodes.
pub fn is_opcode_byte(byte: u8) -> (r: bool)
    ensures
        r == is_opcode(byte),
{
    byte < OP_COUNT
}

/// The mnemonic of a defined opcode, or `None` for any other byte.
pub fn mnemonic(op: u8) -> (r: Option<&'static str>)
    ensures
        r.is_some() == is_opcode(op),
        r.is_some() ==> r.unwrap()@ == mnemonic_of(op),
{
    if op == OP_RETURN {
        Some("OP_RETURN")
    } else if op == OP_CONSTANT {
        Some("OP_CONSTANT")
    } else if op == OP_NEGATE {
        Some("OP_NEGATE")
    } else if op == OP_ADD {
        Some("OP_ADD")
    } else if op == OP_SUBTRACT {
        Some("OP_SUBTRACT")
    } else if op == OP_MULTIPLY {
        Some("OP_MULTIPLY")
    } else if op == OP_DIVIDE {
        Some("OP_DIVIDE")
    } else {
        None
    }
}

} // verus!
