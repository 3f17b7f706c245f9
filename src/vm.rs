//! The virtual machine: an operand stack and an instruction offset over one
//! chunk. `step` executes one instruction; where the instruction needs
//! arithmetic on values, it pops the operands and hands them to the caller,
//! which pushes the result back before the next step.

use vstd::prelude::*;
use crate::chunk::Chunk;
use crate::ops::{
    OP_RETURN, OP_CONSTANT, OP_NEGATE, OP_ADD, OP_SUBTRACT, OP_MULTIPLY, OP_DIVIDE, is_binary,
    is_opcode,
};
use crate::value::Value;

verus! {

/// The most values the operand stack holds.
pub const STACK_MAX: usize = 255;

/// How a run of a chunk ended.
#[derive(Debug, PartialEq, Eq, Structural, Clone, Copy)]
pub enum InterpretResult {
    Success,
    CompileError,
    RuntimeError,
}

/// Why the machine could not go on.
#[derive(Debug, PartialEq, Eq, Structural, Clone, Copy)]
pub enum VmError {
    /// A push onto a stack that already holds `STACK_MAX` values.
    StackOverflow,
    /// A pop from an empty stack.
    StackUnderflow,
    /// The byte at `offset` is no defined opcode.
    UnknownOpcode { offset: usize, byte: u8 },
    /// `OP_CONSTANT` at `offset` is the last byte of the code.
    MissingOperand { offset: usize },
    /// `OP_CONSTANT` at `offset` names an index past the end of the pool.
    MissingConstant { offset: usize, index: u8 },
}

/// What one step did, and what the caller has to do next.
#[derive(Debug, PartialEq, Eq, Structural, Clone, Copy)]
pub enum Action {
    /// A constant was pushed.
    Loaded(Value),
    /// The operand was popped; the caller pushes its negation.
    Negate(Value),
    /// `rhs` was popped first, then `lhs`; the caller pushes `lhs op rhs`.
    Binary { op: u8, lhs: Value, rhs: Value },
    /// The value on top was popped and returned: the run ends normally.
    Return(Value),
    /// The offset is at the end of the code: the run ends normally.
    Finished,
    /// The instruction could not be executed: the run ends in an error and
    /// the machine is left as it was.
    Fault(VmError),
}

/// An operand stack and the offset of the next instruction, over a chunk.
pub struct VM {
    pub chunk: Chunk,
    pub stack: Vec<Value>,
    pub ip: usize,
}

/// The stack, the offset and the action after one step from `stack` at
/// offset `ip`.
pub open spec fn step_spec(code: Seq<u8>, consts: Seq<Value>, stack: Seq<Value>, ip: int) -> (
    Seq<Value>,
    int,
    Action,
) {
    let n = stack.len();
    if ip >= code.len() {
        (stack, ip, Action::Finished)
    } else {
        let op = code[ip];
        if op == OP_RETURN {
            if n == 0 {
                (stack, ip, Action::Fault(VmError::StackUnderflow))
            } else {
                (stack.drop_last(), ip + 1, Action::Return(stack.last()))
            }
        } else if op == OP_CONSTANT {
            if ip + 1 >= code.len() {
                (stack, ip, Action::Fault(VmError::MissingOperand { offset: ip as usize }))
            } else {
                let index = code[ip + 1];
                if index >= consts.len() {
                    (stack, ip, Action::Fault(VmError::MissingConstant { offset: ip as usize, index }))
                } else if n >= STACK_MAX {
                    (stack, ip, Action::Fault(VmError::StackOverflow))
                } else {
                    (stack.push(consts[index as int]), ip + 2, Action::Loaded(consts[index as int]))
                }
            }
        } else if op == OP_NEGATE {
            if n == 0 {
                (stack, ip, Action::Fault(VmError::StackUnderflow))
            } else {
                (stack.drop_last(), ip + 1, Action::Negate(stack.last()))
            }
        } else if is_binary(op) {
            if n < 2 {
                (stack, ip, Action::Fault(VmError::StackUnderflow))
            } else {
                (
                    stack.subrange(0, n - 2),
                    ip + 1,
                    Action::Binary { op, lhs: stack[n - 2], rhs: stack[n - 1] },
                )
            }
        } else {
            (stack, ip, Action::Fault(VmError::UnknownOpcode { offset: ip as usize, byte: op }))
        }
    }
}

/// Whether an action ends the run.
pub open spec fn is_terminal(a: Action) -> bool {
    match a {
        Action::Return(_) | Action::Finished | Action::Fault(_) => true,
        _ => false,
    }
}

/// The result of a run that ended with `a`, if `a` ends it.
pub open spec fn outcome_spec(a: Action) -> Option<InterpretResult> {
    match a {
        Action::Return(_) | Action::Finished => Some(InterpretResult::Success),
        Action::Fault(_) => Some(InterpretResult::RuntimeError),
        _ => None,
    }
}

/// Executing `OP_SUBTRACT` after pushing `a` and then `b` asks for `a - b`:
/// the operand popped second is the left-hand side. Both operands leave the
/// stack.
pub proof fn lemma_subtract_order(
    code: Seq<u8>,
    consts: Seq<Value>,
    stack: Seq<Value>,
    ip: int,
    a: Value,
    b: Value,
)
    requires
        0 <= ip < code.len(),
        code[ip] == OP_SUBTRACT,
    ensures
        step_spec(code, consts, stack.push(a).push(b), ip) == (
            stack,
            ip + 1,
            Action::Binary { op: OP_SUBTRACT, lhs: a, rhs: b },
        ),
{
    let pushed = stack.push(a).push(b);
    assert(pushed.subrange(0, pushed.len() - 2) =~= stack);
}

/// A byte that is no defined opcode, once execution reaches it, ends the run
/// with a runtime error naming it, and leaves the stack and offset as they
/// were; it is neither skipped nor executed.
pub proof fn lemma_unknown_opcode_faults(
    code: Seq<u8>,
    consts: Seq<Value>,
    stack: Seq<Value>,
    ip: int,
)
    requires
        0 <= ip < code.len(),
        !is_opcode(code[ip]),
    ensures
        step_spec(code, consts, stack, ip) == (
            stack,
            ip,
            Action::Fault(VmError::UnknownOpcode { offset: ip as usize, byte: code[ip] }),
        ),
        outcome_spec(step_spec(code, consts, stack, ip).2) == Some(InterpretResult::RuntimeError),
{
}

/// Every step either ends the run or moves the offset forward, never past
/// the end of the code: a run ends after at most `code.len() + 1` steps and
/// ends normally past the end only at the end of the code.
pub proof fn lemma_step_progress(code: Seq<u8>, consts: Seq<Value>, stack: Seq<Value>, ip: int)
    requires
        0 <= ip <= code.len(),
    ensures
        ({
            let (_, next, action) = step_spec(code, consts, stack, ip);
            &&& !is_terminal(action) ==> ip < next <= code.len()
            &&& action == Action::Finished <==> ip == code.len()
            &&& is_terminal(action) <==> outcome_spec(action).is_some()
        }),
{
}

/// The stack never grows past `STACK_MAX`: a step keeps the bound, and
/// loading a constant onto a full stack fails with an overflow, leaving the
/// stack and offset as they were.
pub proof fn lemma_stack_bound(code: Seq<u8>, consts: Seq<Value>, stack: Seq<Value>, ip: int)
    requires
        stack.len() <= STACK_MAX,
    ensures
        step_spec(code, consts, stack, ip).0.len() <= STACK_MAX,
        0 <= ip && ip + 1 < code.len() && code[ip] == OP_CONSTANT && code[ip + 1] < consts.len()
            && stack.len() == STACK_MAX ==> step_spec(code, consts, stack, ip) == (
            stack,
            ip,
            Action::Fault(VmError::StackOverflow),
        ),
{
}

/// An instruction that pops more values than the stack holds fails with an
/// underflow instead of using a default value, and leaves the stack and
/// offset as they were.
pub proof fn lemma_underflow(code: Seq<u8>, consts: Seq<Value>, stack: Seq<Value>, ip: int)
    requires
        0 <= ip < code.len(),
        (code[ip] == OP_RETURN || code[ip] == OP_NEGATE) && stack.len() == 0 || is_binary(code[ip])
            && stack.len() < 2,
    ensures
        step_spec(code, consts, stack, ip) == (stack, ip, Action::Fault(VmError::StackUnderflow)),
{
}

/// The result of a run that ended with `action`, or `None` while it goes on.
pub fn outcome(action: &Action) -> (r: Option<InterpretResult>)
    ensures
        r == outcome_spec(*action),
{
    match action {
        Action::Return(_) | Action::Finished => Some(InterpretResult::Success),
        Action::Fault(_) => Some(InterpretResult::RuntimeError),
        _ => None,
    }
}

impl VM {
    /// Whether the stack is within its bound and the offset within the code.
    pub open spec fn wf(&self) -> bool {
        self.stack@.len() <= STACK_MAX && self.ip <= self.chunk.code@.len()
    }

    /// A machine over `chunk` with an empty stack, at offset 0.
    pub fn new(chunk: Chunk) -> (r: Self)
        ensures
            r.chunk == chunk,
            r.stack@ == Seq::<Value>::empty(),
            r.ip == 0,
            r.wf(),
    {
        VM { chunk, stack: Vec::new(), ip: 0 }
    }

    /// Pushes `value`, or fails on a full stack, leaving it unchanged.
    pub fn push(&mut self, value: Value) -> (r: Result<(), VmError>)
        ensures
            final(self).chunk == old(self).chunk,
            final(self).ip == old(self).ip,
            old(self).stack@.len() < STACK_MAX ==> r == Ok::<(), VmError>(())
                && final(self).stack@ == old(self).stack@.push(value),
            old(self).stack@.len() >= STACK_MAX ==> r == Err::<(), VmError>(VmError::StackOverflow)
                && final(self).stack@ == old(self).stack@,
            old(self).wf() ==> final(self).wf(),
    {
        if self.stack.len() >= STACK_MAX {
            return Err(VmError::StackOverflow);
        }
        self.stack.push(value);
        Ok(())
    }

    /// Pops the value on top, or fails on an empty stack.
    pub fn pop(&mut self) -> (r: Result<Value, VmError>)
        ensures
            final(self).chunk == old(self).chunk,
            final(self).ip == old(self).ip,
            old(self).stack@.len() > 0 ==> r == Ok::<Value, VmError>(old(self).stack@.last())
                && final(self).stack@ == old(self).stack@.drop_last(),
            old(self).stack@.len() == 0 ==> r == Err::<Value, VmError>(VmError::StackUnderflow)
                && final(self).stack@ == old(self).stack@,
    {
        match self.stack.pop() {
            Some(value) => Ok(value),
            None => Err(VmError::StackUnderflow),
        }
    }

    /// Empties the stack.
    pub fn reset_stack(&mut self)
        ensures
            final(self).chunk == old(self).chunk,
            final(self).ip == old(self).ip,
            final(self).stack@ == Seq::<Value>::empty(),
    {
        self.stack = Vec::new();
    }

    /// Executes the instruction at the current offset (see `step_spec`).
    pub fn step(&mut self) -> (r: Action)
        ensures
            final(self).chunk == old(self).chunk,
            old(self).wf() ==> final(self).wf(),
            ({
                let (stack, ip, action) = step_spec(
                    old(self).chunk.code@,
                    old(self).chunk.constants.values@,
                    old(self).stack@,
                    old(self).ip as int,
                );
                &&& final(self).stack@ == stack
                &&& final(self).ip == ip
                &&& r == action
            }),
    {
        let length: usize = self.chunk.code.len();
        let ip: usize = self.ip;
        if ip >= length {
            return Action::Finished;
        }
        let op: u8 = self.chunk.code[ip];
        if op == OP_RETURN {
            match self.pop() {
                Ok(value) => {
                    self.ip = ip + 1;
                    Action::Return(value)
                },
                Err(e) => Action::Fault(e),
            }
        } else if op == OP_CONSTANT {
            if ip + 1 >= length {
                return Action::Fault(VmError::MissingOperand { offset: ip });
            }
            let index: u8 = self.chunk.code[ip + 1];
            match self.chunk.constants.read_value(index as usize) {
                None => Action::Fault(VmError::MissingConstant { offset: ip, index }),
                Some(value) => match self.push(value) {
                    Ok(()) => {
                        self.ip = ip + 2;
                        Action::Loaded(value)
                    },
                    Err(e) => Action::Fault(e),
                },
            }
        } else if op == OP_NEGATE {
            match self.pop() {
                Ok(value) => {
                    self.ip = ip + 1;
                    Action::Negate(value)
                },
                Err(e) => Action::Fault(e),
            }
        } else if op == OP_ADD || op == OP_SUBTRACT || op == OP_MULTIPLY || op == OP_DIVIDE {
            if self.stack.len() < 2 {
                return Action::Fault(VmError::StackUnderflow);
            }
            let ghost before = self.stack@;
            let rhs: Value = match self.pop() {
                Ok(value) => value,
                Err(e) => return Action::Fault(e),
            };
            let lhs: Value = match self.pop() {
                Ok(value) => value,
                Err(e) => return Action::Fault(e),
            };
            assert(self.stack@ =~= before.subrange(0, before.len() - 2));
            self.ip = ip + 1;
            Action::Binary { op, lhs, rhs }
        } else {
            Action::Fault(VmError::UnknownOpcode { offset: ip, byte: op })
        }
    }
}

} // verus!
