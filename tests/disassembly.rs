use bytecode_vm::chunk::Chunk;
use bytecode_vm::disassemble::{
    dissasemble_chunk, dissasemble_instruction, render_header, render_listing, Decoded, Listing,
};
use bytecode_vm::ops::{OP_CONSTANT, OP_RETURN, OP_SUBTRACT};

fn sample() -> Chunk {
    let mut chunk = Chunk::new();
    let a = chunk.write_constant(42.0f64.to_bits()).unwrap();
    let b = chunk.write_constant(43.0f64.to_bits()).unwrap();
    chunk.write_chunk(OP_CONSTANT, 123);
    chunk.write_chunk(a, 123);
    chunk.write_chunk(OP_CONSTANT, 123);
    chunk.write_chunk(b, 124);
    chunk.write_chunk(OP_SUBTRACT, 124);
    chunk.write_chunk(OP_RETURN, 125);
    chunk
}

#[test]
fn listing_of_the_sample_chunk() {
    let listing = dissasemble_chunk(&sample());
    let offsets: Vec<usize> = listing.iter().map(|l| l.offset).collect();
    assert_eq!(offsets, vec![0, 2, 4, 5]);
    assert_eq!(
        listing[0],
        Listing {
            offset: 0,
            line: 123,
            repeated_line: false,
            decoded: Decoded::Constant { index: 0, value: 42.0f64.to_bits() },
            next: 2,
        }
    );
    assert_eq!(listing[1].decoded, Decoded::Constant { index: 1, value: 43.0f64.to_bits() });
    assert!(listing[1].repeated_line);
    assert_eq!(listing[2].decoded, Decoded::Simple { op: OP_SUBTRACT });
    assert!(listing[2].repeated_line);
    assert_eq!(listing[3].decoded, Decoded::Simple { op: OP_RETURN });
    assert_eq!(listing[3].line, 125);
    assert!(!listing[3].repeated_line);
}

#[test]
fn disassembly_is_deterministic() {
    let chunk = sample();
    assert_eq!(dissasemble_chunk(&chunk), dissasemble_chunk(&chunk));
}

#[test]
fn repeated_lines_become_placeholders() {
    let mut chunk = Chunk::new();
    chunk.write_chunk(OP_RETURN, 123);
    chunk.write_chunk(OP_RETURN, 123);
    chunk.write_chunk(OP_RETURN, 124);
    let listing = dissasemble_chunk(&chunk);
    assert_eq!(listing.len(), 3);
    assert_eq!((listing[0].line, listing[0].repeated_line), (123, false));
    assert_eq!((listing[1].line, listing[1].repeated_line), (123, true));
    assert_eq!((listing[2].line, listing[2].repeated_line), (124, false));
}

#[test]
fn unknown_opcode_is_flagged_and_stepped_over() {
    let mut chunk = Chunk::new();
    chunk.write_chunk(200, 1);
    chunk.write_chunk(OP_RETURN, 1);
    let entry = dissasemble_instruction(&chunk, 0);
    assert_eq!(entry.decoded, Decoded::UnknownOpcode { byte: 200 });
    assert_eq!(entry.next, 1);
    assert_eq!(dissasemble_chunk(&chunk).len(), 2);
}

#[test]
fn constant_without_operand_or_pool_entry() {
    let mut chunk = Chunk::new();
    chunk.write_chunk(OP_CONSTANT, 1);
    chunk.write_chunk(3, 1);
    chunk.write_chunk(OP_CONSTANT, 2);
    let listing = dissasemble_chunk(&chunk);
    assert_eq!(listing.len(), 2);
    assert_eq!(listing[0].decoded, Decoded::MissingConstant { index: 3 });
    assert_eq!(listing[0].next, 2);
    assert_eq!(listing[1].decoded, Decoded::MissingOperand);
    assert_eq!(listing[1].next, 3);
}

#[test]
fn empty_chunk_lists_nothing() {
    assert!(dissasemble_chunk(&Chunk::new()).is_empty());
}

fn text_of(chunk: &Chunk) -> Vec<String> {
    let mut lines = vec![render_header("test").into_iter().collect::<String>()];
    for entry in dissasemble_chunk(chunk) {
        let value_text = match entry.decoded {
            Decoded::Constant { value, .. } => format!("{:?}", f64::from_bits(value)),
            _ => String::new(),
        };
        lines.push(render_listing(&entry, &value_text).into_iter().collect());
    }
    lines
}

#[test]
fn text_of_the_sample_chunk() {
    assert_eq!(
        text_of(&sample()),
        vec![
            "=== test ===",
            "0000 0123  OP_CONSTANT  0000 42.0",
            "0002    |  OP_CONSTANT  0001 43.0",
            "0004    |  OP_SUBTRACT",
            "0005 0125  OP_RETURN",
        ]
    );
}

#[test]
fn text_is_identical_on_a_second_pass() {
    let chunk = sample();
    assert_eq!(text_of(&chunk), text_of(&chunk));
}

#[test]
fn text_line_numbers_and_placeholders() {
    let mut chunk = Chunk::new();
    chunk.write_chunk(OP_RETURN, 123);
    chunk.write_chunk(OP_RETURN, 123);
    chunk.write_chunk(OP_RETURN, 124);
    let text = text_of(&chunk);
    assert_eq!(text[1], "0000 0123  OP_RETURN");
    assert_eq!(text[2], "0001    |  OP_RETURN");
    assert_eq!(text[3], "0002 0124  OP_RETURN");
}

#[test]
fn text_of_faulty_instructions() {
    let mut chunk = Chunk::new();
    chunk.write_chunk(200, 7);
    chunk.write_chunk(OP_CONSTANT, 12345);
    chunk.write_chunk(9, 12345);
    chunk.write_chunk(OP_CONSTANT, 12345);
    let text = text_of(&chunk);
    assert_eq!(text[1], "0000 0007  UNKNOWN_OPCODE 0200");
    assert_eq!(text[2], "0001 12345  OP_CONSTANT  0009 (no such constant)");
    assert_eq!(text[3], "0003    |  OP_CONSTANT  (no operand)");
}

#[test]
fn simple_entry_with_a_stray_byte_renders_as_unknown() {
    let entry = Listing {
        offset: 10000,
        line: 0,
        repeated_line: false,
        decoded: Decoded::Simple { op: 99 },
        next: 10001,
    };
    let text: String = render_listing(&entry, "ignored").into_iter().collect();
    assert_eq!(text, "10000 0000  UNKNOWN_OPCODE 0099");
}
