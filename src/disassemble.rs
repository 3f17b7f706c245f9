//! The disassembler: decodes a chunk into one listing entry per instruction,
//! which the embedding program prints as text.

use vstd::prelude::*;
use crate::chunk::Chunk;
use vstd::string::StrSliceExecFns;
use crate::ops::{OP_CONSTANT, is_opcode, is_opcode_byte, mnemonic, mnemonic_of};
use crate::value::Value;

verus! {

/// What the instruction at an offset is.
#[derive(Debug, PartialEq, Eq, Structural, Clone, Copy)]
pub enum Decoded {
    /// A defined opcode without operand.
    Simple { op: u8 },
    /// `OP_CONSTANT` with its index and the constant found there.
    Constant { index: u8, value: Value },
    /// A byte that is no defined opcode; it is stepped over as one byte.
    UnknownOpcode { byte: u8 },
    /// `OP_CONSTANT` as the last byte of the code, without its index.
    MissingOperand,
    /// `OP_CONSTANT` whose index lies past the end of the pool.
    MissingConstant { index: u8 },
}

/// One line of a disassembly.
#[derive(Debug, PartialEq, Eq, Structural, Clone, Copy)]
pub struct Listing {
    /// Where the instruction starts.
    pub offset: usize,
    /// The source line of its first byte.
    pub line: u64,
    /// Whether that line is the one of the byte before, so that it is
    /// printed as a placeholder instead of a number.
    pub repeated_line: bool,
    pub decoded: Decoded,
    /// Where the next instruction starts.
    pub next: usize,
}

/// How the instruction at `offset` decodes.
pub open spec fn decode(code: Seq<u8>, consts: Seq<Value>, offset: int) -> Decoded {
    let op = code[offset];
    if op == OP_CONSTANT {
        if offset + 1 >= code.len() {
            Decoded::MissingOperand
        } else {
            let index = code[offset + 1];
            if index < consts.len() {
                Decoded::Constant { index, value: consts[index as int] }
            } else {
                Decoded::MissingConstant { index }
            }
        }
    } else if is_opcode(op) {
        Decoded::Simple { op }
    } else {
        Decoded::UnknownOpcode { byte: op }
    }
}

/// How many bytes a decoded instruction takes.
pub open spec fn width(d: Decoded) -> int {
    match d {
        Decoded::Constant { .. } => 2,
        Decoded::MissingConstant { .. } => 2,
        _ => 1,
    }
}

/// Whether the line at `offset` repeats the line of the byte before it.
pub open spec fn line_repeats(lines: Seq<u64>, offset: int) -> bool {
    offset > 0 && lines[offset] == lines[offset - 1]
}

/// The listing entry for the instruction at `offset`.
pub open spec fn listing_at(chunk: Chunk, offset: int) -> Listing {
    let d = decode(chunk.code@, chunk.constants.values@, offset);
    Listing {
        offset: offset as usize,
        line: chunk.lines@[offset],
        repeated_line: line_repeats(chunk.lines@, offset),
        decoded: d,
        next: (offset + width(d)) as usize,
    }
}

/// The entries of every instruction from `offset` to the end of the code.
pub open spec fn listings_from(chunk: Chunk, offset: int) -> Seq<Listing>
    decreases chunk.code@.len() - offset,
{
    if offset < 0 || offset >= chunk.code@.len() {
        Seq::empty()
    } else {
        let d = decode(chunk.code@, chunk.constants.values@, offset);
        seq![listing_at(chunk, offset)] + listings_from(chunk, offset + width(d))
    }
}

/// The whole disassembly of a chunk.
pub open spec fn listing(chunk: Chunk) -> Seq<Listing> {
    listings_from(chunk, 0)
}

/// The disassembly depends on the chunk's contents alone: two chunks with
/// the same code, lines and constants, or one chunk disassembled twice,
/// list identically.
pub proof fn lemma_disassembly_deterministic(a: Chunk, b: Chunk)
    requires
        a.code@ == b.code@,
        a.lines@ == b.lines@,
        a.constants.values@ == b.constants.values@,
    ensures
        listing(a) == listing(b),
{
    lemma_listings_agree(a, b, 0);
}

proof fn lemma_listings_agree(a: Chunk, b: Chunk, offset: int)
    requires
        a.code@ == b.code@,
        a.lines@ == b.lines@,
        a.constants.values@ == b.constants.values@,
    ensures
        listings_from(a, offset) == listings_from(b, offset),
    decreases a.code@.len() - offset,
{
    if 0 <= offset < a.code@.len() {
        let d = decode(a.code@, a.constants.values@, offset);
        lemma_listings_agree(a, b, offset + width(d));
    }
}

/// Decodes the one instruction that starts at `offset`.
pub fn dissasemble_instruction(as_chunk: &Chunk, offset: usize) -> (r: Listing)
    requires
        as_chunk.wf(),
        offset < as_chunk.code@.len(),
    ensures
        r == listing_at(*as_chunk, offset as int),
        r.next > offset,
{
    let length: usize = as_chunk.code.len();
    let op: u8 = as_chunk.code[offset];
    let decoded: Decoded = if op == OP_CONSTANT {
        if offset + 1 >= length {
            Decoded::MissingOperand
        } else {
            let index: u8 = as_chunk.code[offset + 1];
            match as_chunk.constants.read_value(index as usize) {
                Some(value) => Decoded::Constant { index, value },
                None => Decoded::MissingConstant { index },
            }
        }
    } else if is_opcode_byte(op) {
        Decoded::Simple { op }
    } else {
        Decoded::UnknownOpcode { byte: op }
    };
    let next: usize = match decoded {
        Decoded::Constant { .. } => offset + 2,
        Decoded::MissingConstant { .. } => offset + 2,
        _ => offset + 1,
    };
    let repeated_line: bool = offset > 0 && as_chunk.lines[offset] == as_chunk.lines[offset - 1];
    Listing { offset, line: as_chunk.lines[offset], repeated_line, decoded, next }
}

/// Decodes every instruction of the chunk, from offset 0 to the end,
/// stepping over each instruction's operand bytes.
pub fn dissasemble_chunk(as_chunk: &Chunk) -> (r: Vec<Listing>)
    requires
        as_chunk.wf(),
    ensures
        r@ == listing(*as_chunk),
{
    let mut out: Vec<Listing> = Vec::new();
    let mut offset: usize = 0;
    let length: usize = as_chunk.code.len();
    while offset < length
        invariant
            as_chunk.wf(),
            length == as_chunk.code@.len(),
            offset <= length,
            out@ + listings_from(*as_chunk, offset as int) == listing(*as_chunk),
        decreases length - offset,
    {
        let entry: Listing = dissasemble_instruction(as_chunk, offset);
        proof {
            let rest = listings_from(*as_chunk, entry.next as int);
            assert(listings_from(*as_chunk, offset as int) == seq![entry] + rest);
            assert(out@.push(entry) + rest == out@ + (seq![entry] + rest));
        }
        out.push(entry);
        offset = entry.next;
    }
    proof {
        assert(out@ + listings_from(*as_chunk, offset as int) == out@);
    }
    out
}

/// The decimal digit `d`, for `d < 10`.
pub open spec fn digit_char(d: int) -> char {
    if d == 0 {
        '0'
    } else if d == 1 {
        '1'
    } else if d == 2 {
        '2'
    } else if d == 3 {
        '3'
    } else if d == 4 {
        '4'
    } else if d == 5 {
        '5'
    } else if d == 6 {
        '6'
    } else if d == 7 {
        '7'
    } else if d == 8 {
        '8'
    } else {
        '9'
    }
}

/// `n` in decimal, without leading zeros.
pub open spec fn decimal(n: nat) -> Seq<char>
    decreases n,
{
    if n < 10 {
        seq![digit_char(n as int)]
    } else {
        decimal(n / 10).push(digit_char((n % 10) as int))
    }
}

/// `n` in decimal, padded with zeros on the left to at least four digits.
pub open spec fn zero_padded(n: nat) -> Seq<char> {
    let d = decimal(n);
    if d.len() < 4 {
        Seq::new((4 - d.len()) as nat, |_i: int| '0') + d
    } else {
        d
    }
}

/// The line column: the number, or a placeholder where it repeats.
pub open spec fn line_column(e: Listing) -> Seq<char> {
    if e.repeated_line {
        "    | "@
    } else {
        " "@ + zero_padded(e.line as nat) + " "@
    }
}

/// How a byte that is no opcode is shown.
pub open spec fn unknown_text(byte: u8) -> Seq<char> {
    " UNKNOWN_OPCODE "@ + zero_padded(byte as nat)
}

/// The instruction column; `value_text` is how the constant is shown.
pub open spec fn instruction_text(d: Decoded, value_text: Seq<char>) -> Seq<char> {
    match d {
        Decoded::Simple { op } => if is_opcode(op) {
            " "@ + mnemonic_of(op)
        } else {
            unknown_text(op)
        },
        Decoded::Constant { index, value: _ } => " OP_CONSTANT  "@ + zero_padded(index as nat)
            + " "@ + value_text,
        Decoded::UnknownOpcode { byte } => unknown_text(byte),
        Decoded::MissingOperand => " OP_CONSTANT  (no operand)"@,
        Decoded::MissingConstant { index } => " OP_CONSTANT  "@ + zero_padded(index as nat)
            + " (no such constant)"@,
    }
}

/// The text of one listing line, without its line break.
pub open spec fn listing_text(e: Listing, value_text: Seq<char>) -> Seq<char> {
    zero_padded(e.offset as nat) + line_column(e) + instruction_text(e.decoded, value_text)
}

/// The header line of a disassembly named `name`.
pub open spec fn header_text(name: Seq<char>) -> Seq<char> {
    "=== "@ + name + " ==="@
}

fn digit(d: u64) -> (r: char)
    requires
        d < 10,
    ensures
        r == digit_char(d as int),
{
    if d == 0 {
        '0'
    } else if d == 1 {
        '1'
    } else if d == 2 {
        '2'
    } else if d == 3 {
        '3'
    } else if d == 4 {
        '4'
    } else if d == 5 {
        '5'
    } else if d == 6 {
        '6'
    } else if d == 7 {
        '7'
    } else if d == 8 {
        '8'
    } else {
        '9'
    }
}

fn push_decimal(n: u64, out: &mut Vec<char>)
    ensures
        final(out)@ == old(out)@ + decimal(n as nat),
    decreases n,
{
    if n >= 10 {
        push_decimal(n / 10, out);
    }
    out.push(digit(n % 10));
    proof {
        if n >= 10 {
            assert(old(out)@ + decimal(n as nat) == (old(out)@ + decimal((n / 10) as nat)).push(
                digit_char((n % 10) as int),
            ));
        } else {
            assert(old(out)@ + decimal(n as nat) == old(out)@.push(digit_char(n as int)));
        }
    }
}

fn push_chars(out: &mut Vec<char>, src: &Vec<char>)
    ensures
        final(out)@ == old(out)@ + src@,
{
    let mut i: usize = 0;
    while i < src.len()
        invariant
            i <= src@.len(),
            out@ == old(out)@ + src@.subrange(0, i as int),
        decreases src@.len() - i,
    {
        out.push(src[i]);
        i = i + 1;
        assert(src@.subrange(0, i as int) == src@.subrange(0, i - 1).push(src@[i - 1]));
    }
    assert(src@.subrange(0, i as int) == src@);
}

fn push_str(out: &mut Vec<char>, s: &str)
    ensures
        final(out)@ == old(out)@ + s@,
{
    let n: usize = s.unicode_len();
    let mut i: usize = 0;
    while i < n
        invariant
            n == s@.len(),
            i <= n,
            out@ == old(out)@ + s@.subrange(0, i as int),
        decreases n - i,
    {
        out.push(s.get_char(i));
        i = i + 1;
        assert(s@.subrange(0, i as int) == s@.subrange(0, i - 1).push(s@[i - 1]));
    }
    assert(s@.subrange(0, i as int) == s@);
}

fn push_zero_padded(n: u64, out: &mut Vec<char>)
    ensures
        final(out)@ == old(out)@ + zero_padded(n as nat),
{
    let mut digits: Vec<char> = Vec::new();
    push_decimal(n, &mut digits);
    assert(digits@ == decimal(n as nat));
    let ghost base = out@;
    let mut k: usize = digits.len();
    while k < 4
        invariant
            digits@ == decimal(n as nat),
            k <= 4 || k == digits@.len(),
            k >= digits@.len(),
            out@ == base + Seq::new((k - digits@.len()) as nat, |_i: int| '0'),
        decreases 4 - k,
    {
        out.push('0');
        k = k + 1;
        assert(Seq::new((k - digits@.len()) as nat, |_i: int| '0') == Seq::new(
            (k - 1 - digits@.len()) as nat,
            |_i: int| '0',
        ).push('0'));
    }
    let ghost zeros = Seq::new((k - digits@.len()) as nat, |_i: int| '0');
    push_chars(out, &digits);
    proof {
        if digits@.len() >= 4 {
            assert(zeros == Seq::<char>::empty());
            assert(base + zeros == base);
        }
        assert(base + zeros + digits@ == base + (zeros + digits@));
    }
}

/// Renders a listing line, without its line break. `value_text` is how the
/// constant of an `OP_CONSTANT` is to be shown; other lines ignore it.
pub fn render_listing(entry: &Listing, value_text: &str) -> (r: Vec<char>)
    ensures
        r@ == listing_text(*entry, value_text@),
{
    let mut out: Vec<char> = Vec::new();
    push_zero_padded(entry.offset as u64, &mut out);
    let ghost first = out@;
    if entry.repeated_line {
        push_str(&mut out, "    | ");
    } else {
        push_str(&mut out, " ");
        push_zero_padded(entry.line, &mut out);
        push_str(&mut out, " ");
    }
    let ghost second = out@;
    assert(second == first + line_column(*entry));
    match entry.decoded {
        Decoded::Simple { op } => match mnemonic(op) {
            Some(name) => {
                push_str(&mut out, " ");
                push_str(&mut out, name);
            },
            None => {
                push_str(&mut out, " UNKNOWN_OPCODE ");
                push_zero_padded(op as u64, &mut out);
            },
        },
        Decoded::Constant { index, value: _ } => {
            push_str(&mut out, " OP_CONSTANT  ");
            push_zero_padded(index as u64, &mut out);
            push_str(&mut out, " ");
            push_str(&mut out, value_text);
        },
        Decoded::UnknownOpcode { byte } => {
            push_str(&mut out, " UNKNOWN_OPCODE ");
            push_zero_padded(byte as u64, &mut out);
        },
        Decoded::MissingOperand => {
            push_str(&mut out, " OP_CONSTANT  (no operand)");
        },
        Decoded::MissingConstant { index } => {
            push_str(&mut out, " OP_CONSTANT  ");
            push_zero_padded(index as u64, &mut out);
            push_str(&mut out, " (no such constant)");
        },
    }
    assert(out@ == second + instruction_text(entry.decoded, value_text@));
    out
}

/// Renders the header line of a disassembly named `name`.
pub fn render_header(name: &str) -> (r: Vec<char>)
    ensures
        r@ == header_text(name@),
{
    let mut out: Vec<char> = Vec::new();
    push_str(&mut out, "=== ");
    push_str(&mut out, name);
    push_str(&mut out, " ===");
    out
}

} // verus!
