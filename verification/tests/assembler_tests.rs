use asm8051::mir::instruction::{Address, Data, Instruction, InstructionError};
use asm8051::mir::mir::Mir;
use asm8051::mir::symbols::SymbolTable;
use asm8051::parser::ast::{Label, Line, LineBody, Operand, ParserState, Program, Value};
use asm8051::parser::keywords::{Operator, Register};
use asm8051::parser::lexer::Tokenizer;

fn a() -> Operand {
    Operand::Register(Register::A)
}

fn c() -> Operand {
    Operand::Register(Register::C)
}

fn dptr() -> Operand {
    Operand::Register(Register::DPTR)
}

fn r(n: u8) -> Operand {
    Operand::Register(Register::R(n))
}

fn ind(n: u8) -> Operand {
    Operand::IndirectReg(Register::R(n))
}

fn dir(addr: u8) -> Operand {
    Operand::Direct(addr)
}

fn bit(addr: u8) -> Operand {
    Operand::DirectBit(addr)
}

fn imm(n: i32) -> Operand {
    Operand::Immediate(n)
}

fn id(name: &str) -> Operand {
    Operand::ImmediateId(name.to_string())
}

fn label(name: &str) -> Address {
    Address::Label(name.to_string())
}

fn symbols(entries: &[(&str, i32)]) -> SymbolTable {
    let mut table = SymbolTable::new();
    for (name, value) in entries {
        table.insert(name.to_string(), *value);
    }
    table
}

fn code(operator: Operator, operands: Vec<Operand>) -> Line {
    Line::ProgramLine {
        label: None,
        body: Some(LineBody::CodeLine { operator, operands }),
    }
}

fn labelled(name: &str, operator: Operator, operands: Vec<Operand>) -> Line {
    Line::ProgramLine {
        label: Some(Label(name.to_string())),
        body: Some(LineBody::CodeLine { operator, operands }),
    }
}

fn assemble(source: &str) -> String {
    let tokens = Tokenizer::tokenize(source).unwrap();
    let program = ParserState::parse(tokens).unwrap();
    Mir::from_program(program).unwrap().gen_intel_hex().unwrap()
}

fn image(lines: Vec<Line>) -> Result<String, InstructionError> {
    Mir::from_program(Program { lines })?.gen_intel_hex()
}

/// The bytes of every data record of an image, with the record's address.
fn records(hex: &str) -> Vec<(u16, Vec<u8>)> {
    let mut out = vec![];
    for line in hex.lines() {
        assert!(line.starts_with(':'), "{}", line);
        let bytes: Vec<u8> = (1..line.len())
            .step_by(2)
            .map(|i| u8::from_str_radix(&line[i..i + 2], 16).unwrap())
            .collect();
        let sum: u32 = bytes.iter().map(|b| *b as u32).sum();
        assert_eq!(sum % 256, 0, "{}", line);
        assert_eq!(line, line.to_uppercase());
        if bytes[3] == 0 {
            assert_eq!(bytes[0] as usize, bytes.len() - 5);
            let addr = (bytes[1] as u16) * 256 + bytes[2] as u16;
            out.push((addr, bytes[4..bytes.len() - 1].to_vec()));
        }
    }
    out
}

/// The bytes of one instruction at address 0x0100, where `here` is 0x0100,
/// `near` is 0x0110, `far` is 0x1234 and `n` is 0x5A.
fn encode(operator: Operator, operands: Vec<Operand>) -> Vec<u8> {
    let table = symbols(&[("here", 0x100), ("near", 0x110), ("far", 0x1234), ("n", 0x5A)]);
    let instruction = Instruction::from_code(operator, operands).unwrap();
    let bytes = instruction.to_bytes(&table, 0x100).unwrap();
    assert_eq!(instruction.bytes() as usize, bytes.len());
    bytes
}

fn refused(operator: Operator, operands: Vec<Operand>, pos: u8) {
    let operand = operands[pos as usize].clone();
    assert_eq!(
        Instruction::from_code(operator, operands),
        Err(InstructionError::InvalidOperand {
            operator,
            operand,
            pos
        })
    );
}

#[test]
fn instructions_without_operands() {
    assert_eq!(encode(Operator::Nop, vec![]), vec![0x00]);
    assert_eq!(encode(Operator::Ret, vec![]), vec![0x22]);
    assert_eq!(encode(Operator::Reti, vec![]), vec![0x32]);
}

#[test]
fn accumulator_instructions() {
    assert_eq!(encode(Operator::Rl, vec![a()]), vec![0x23]);
    assert_eq!(encode(Operator::Rlc, vec![a()]), vec![0x33]);
    assert_eq!(encode(Operator::Rr, vec![a()]), vec![0x03]);
    assert_eq!(encode(Operator::Rrc, vec![a()]), vec![0x13]);
    assert_eq!(encode(Operator::Da, vec![a()]), vec![0xD4]);
    assert_eq!(encode(Operator::Swap, vec![a()]), vec![0xC4]);
    assert_eq!(encode(Operator::Mul, vec![a(), dir(0xF0)]), vec![0xA4]);
    assert_eq!(encode(Operator::Div, vec![a(), dir(0xF0)]), vec![0x84]);
    refused(Operator::Rl, vec![c()], 0);
    refused(Operator::Swap, vec![r(0)], 0);
    refused(Operator::Mul, vec![a(), dir(0xF1)], 1);
    refused(Operator::Div, vec![a(), a()], 1);
    refused(Operator::Div, vec![c(), dir(0xF0)], 0);
}

#[test]
fn arithmetic_on_the_accumulator() {
    let table: Vec<(Operator, u8)> = vec![
        (Operator::Add, 0x20),
        (Operator::Addc, 0x30),
        (Operator::Subb, 0x90),
        (Operator::Orl, 0x40),
        (Operator::Anl, 0x50),
        (Operator::Xrl, 0x60),
    ];
    for (op, base) in table {
        assert_eq!(encode(op, vec![a(), r(0)]), vec![base | 0x08]);
        assert_eq!(encode(op, vec![a(), r(7)]), vec![base | 0x0F]);
        assert_eq!(encode(op, vec![a(), dir(0x30)]), vec![base | 0x05, 0x30]);
        assert_eq!(encode(op, vec![a(), ind(0)]), vec![base | 0x06]);
        assert_eq!(encode(op, vec![a(), ind(1)]), vec![base | 0x07]);
        assert_eq!(encode(op, vec![a(), imm(0x12)]), vec![base | 0x04, 0x12]);
        assert_eq!(encode(op, vec![a(), imm(255)]), vec![base | 0x04, 0xFF]);
        assert_eq!(encode(op, vec![a(), imm(-1)]), vec![base | 0x04, 0xFF]);
        assert_eq!(encode(op, vec![a(), imm(-128)]), vec![base | 0x04, 0x80]);
        assert_eq!(encode(op, vec![a(), id("n")]), vec![base | 0x04, 0x5A]);
        refused(op, vec![a(), ind(2)], 1);
        refused(op, vec![a(), imm(256)], 1);
        refused(op, vec![a(), imm(-129)], 1);
        refused(op, vec![a(), a()], 1);
        refused(op, vec![r(0), a()], 0);
        refused(op, vec![imm(1), a()], 0);
    }
}

#[test]
fn logic_on_memory_and_on_the_carry() {
    let table: Vec<(Operator, u8)> = vec![
        (Operator::Orl, 0x40),
        (Operator::Anl, 0x50),
        (Operator::Xrl, 0x60),
    ];
    for (op, base) in table {
        assert_eq!(encode(op, vec![dir(0x30), a()]), vec![base | 0x02, 0x30]);
        assert_eq!(
            encode(op, vec![dir(0x30), imm(0x0F)]),
            vec![base | 0x03, 0x30, 0x0F]
        );
        assert_eq!(
            encode(op, vec![dir(0x30), id("n")]),
            vec![base | 0x03, 0x30, 0x5A]
        );
        refused(op, vec![dir(0x30), dir(0x31)], 1);
        refused(op, vec![dir(0x30), imm(300)], 1);
    }
    assert_eq!(encode(Operator::Orl, vec![c(), bit(0x93)]), vec![0x72, 0x93]);
    assert_eq!(encode(Operator::Anl, vec![c(), bit(0x93)]), vec![0x82, 0x93]);
    refused(Operator::Xrl, vec![c(), bit(0x93)], 0);
    refused(Operator::Anl, vec![c(), dir(0x93)], 1);
    refused(Operator::Orl, vec![bit(0x93), c()], 0);
}

#[test]
fn bit_instructions() {
    assert_eq!(encode(Operator::Clr, vec![a()]), vec![0xE4]);
    assert_eq!(encode(Operator::Clr, vec![c()]), vec![0xC3]);
    assert_eq!(encode(Operator::Clr, vec![bit(0x07)]), vec![0xC2, 0x07]);
    assert_eq!(encode(Operator::Cpl, vec![a()]), vec![0xF4]);
    assert_eq!(encode(Operator::Cpl, vec![c()]), vec![0xB3]);
    assert_eq!(encode(Operator::Cpl, vec![bit(0x07)]), vec![0xB2, 0x07]);
    assert_eq!(encode(Operator::Setb, vec![c()]), vec![0xD3]);
    assert_eq!(encode(Operator::Setb, vec![bit(0x97)]), vec![0xD2, 0x97]);
    refused(Operator::Setb, vec![a()], 0);
    refused(Operator::Clr, vec![dir(0x07)], 0);
    refused(Operator::Cpl, vec![r(1)], 0);
}

#[test]
fn increments_and_decrements() {
    assert_eq!(encode(Operator::Inc, vec![a()]), vec![0x04]);
    assert_eq!(encode(Operator::Inc, vec![r(3)]), vec![0x0B]);
    assert_eq!(encode(Operator::Inc, vec![dir(0x40)]), vec![0x05, 0x40]);
    assert_eq!(encode(Operator::Inc, vec![ind(0)]), vec![0x06]);
    assert_eq!(encode(Operator::Inc, vec![ind(1)]), vec![0x07]);
    assert_eq!(encode(Operator::Inc, vec![dptr()]), vec![0xA3]);
    assert_eq!(encode(Operator::Dec, vec![a()]), vec![0x14]);
    assert_eq!(encode(Operator::Dec, vec![r(3)]), vec![0x1B]);
    assert_eq!(encode(Operator::Dec, vec![dir(0x40)]), vec![0x15, 0x40]);
    assert_eq!(encode(Operator::Dec, vec![ind(0)]), vec![0x16]);
    assert_eq!(encode(Operator::Dec, vec![ind(1)]), vec![0x17]);
    refused(Operator::Dec, vec![dptr()], 0);
    refused(Operator::Inc, vec![ind(2)], 0);
    refused(Operator::Dec, vec![ind(7)], 0);
    refused(Operator::Inc, vec![c()], 0);
}

#[test]
fn stack_and_exchange() {
    assert_eq!(encode(Operator::Push, vec![dir(0xE0)]), vec![0xC0, 0xE0]);
    assert_eq!(encode(Operator::Pop, vec![dir(0xE0)]), vec![0xD0, 0xE0]);
    assert_eq!(encode(Operator::Xch, vec![a(), r(2)]), vec![0xCA]);
    assert_eq!(encode(Operator::Xch, vec![a(), dir(0x30)]), vec![0xC5, 0x30]);
    assert_eq!(encode(Operator::Xch, vec![a(), ind(1)]), vec![0xC7]);
    assert_eq!(encode(Operator::Xchd, vec![a(), ind(0)]), vec![0xD6]);
    refused(Operator::Push, vec![a()], 0);
    refused(Operator::Pop, vec![r(0)], 0);
    refused(Operator::Xch, vec![a(), imm(1)], 1);
    refused(Operator::Xch, vec![r(0), a()], 0);
    refused(Operator::Xchd, vec![a(), r(0)], 1);
    refused(Operator::Xchd, vec![a(), ind(2)], 1);
}

#[test]
fn every_form_of_mov() {
    assert_eq!(encode(Operator::Mov, vec![a(), r(5)]), vec![0xED]);
    assert_eq!(encode(Operator::Mov, vec![a(), dir(0x30)]), vec![0xE5, 0x30]);
    assert_eq!(encode(Operator::Mov, vec![a(), ind(1)]), vec![0xE7]);
    assert_eq!(encode(Operator::Mov, vec![a(), imm(5)]), vec![0x74, 0x05]);
    assert_eq!(encode(Operator::Mov, vec![a(), id("n")]), vec![0x74, 0x5A]);
    assert_eq!(encode(Operator::Mov, vec![r(5), a()]), vec![0xFD]);
    assert_eq!(encode(Operator::Mov, vec![r(5), dir(0x30)]), vec![0xAD, 0x30]);
    assert_eq!(encode(Operator::Mov, vec![r(5), imm(7)]), vec![0x7D, 0x07]);
    assert_eq!(encode(Operator::Mov, vec![r(5), id("n")]), vec![0x7D, 0x5A]);
    assert_eq!(encode(Operator::Mov, vec![dir(0x30), a()]), vec![0xF5, 0x30]);
    assert_eq!(encode(Operator::Mov, vec![dir(0x30), r(5)]), vec![0x8D, 0x30]);
    // the source comes first in the bytes
    assert_eq!(
        encode(Operator::Mov, vec![dir(0x30), dir(0x40)]),
        vec![0x85, 0x40, 0x30]
    );
    assert_eq!(encode(Operator::Mov, vec![dir(0x30), ind(1)]), vec![0x87, 0x30]);
    assert_eq!(
        encode(Operator::Mov, vec![dir(0xB0), imm(0xAA)]),
        vec![0x75, 0xB0, 0xAA]
    );
    assert_eq!(
        encode(Operator::Mov, vec![dir(0x30), id("n")]),
        vec![0x75, 0x30, 0x5A]
    );
    assert_eq!(encode(Operator::Mov, vec![ind(0), a()]), vec![0xF6]);
    assert_eq!(encode(Operator::Mov, vec![ind(1), dir(0x30)]), vec![0xA7, 0x30]);
    assert_eq!(encode(Operator::Mov, vec![ind(1), imm(9)]), vec![0x77, 0x09]);
    assert_eq!(encode(Operator::Mov, vec![ind(0), id("n")]), vec![0x76, 0x5A]);
    assert_eq!(encode(Operator::Mov, vec![c(), bit(0x20)]), vec![0xA2, 0x20]);
    assert_eq!(encode(Operator::Mov, vec![bit(0x20), c()]), vec![0x92, 0x20]);
    assert_eq!(
        encode(Operator::Mov, vec![dptr(), imm(0x1234)]),
        vec![0x90, 0x12, 0x34]
    );
    assert_eq!(
        encode(Operator::Mov, vec![dptr(), imm(0xFFFF)]),
        vec![0x90, 0xFF, 0xFF]
    );
    assert_eq!(
        encode(Operator::Mov, vec![dptr(), id("far")]),
        vec![0x90, 0x12, 0x34]
    );
}

#[test]
fn forms_that_mov_refuses() {
    // the accumulator is not moved by its direct address
    refused(Operator::Mov, vec![a(), dir(0xE0)], 1);
    refused(Operator::Mov, vec![dir(0xE0), a()], 1);
    refused(Operator::Mov, vec![a(), a()], 1);
    refused(Operator::Mov, vec![a(), imm(256)], 1);
    refused(Operator::Mov, vec![r(0), r(1)], 1);
    refused(Operator::Mov, vec![r(0), ind(0)], 1);
    refused(Operator::Mov, vec![ind(0), ind(1)], 1);
    refused(Operator::Mov, vec![ind(2), a()], 0);
    refused(Operator::Mov, vec![imm(1), a()], 0);
    refused(Operator::Mov, vec![id("n"), a()], 0);
    refused(Operator::Mov, vec![Operand::Register(Register::PC), a()], 0);
    refused(Operator::Mov, vec![dptr(), imm(65536)], 1);
    refused(Operator::Mov, vec![dptr(), imm(-1)], 1);
    refused(Operator::Mov, vec![dptr(), a()], 1);
    refused(Operator::Mov, vec![c(), dir(0x20)], 1);
    refused(Operator::Mov, vec![bit(0x20), a()], 1);
}

#[test]
fn movc_and_movx() {
    let sum = |second| Operand::IndirectSum(Register::A, second);
    assert_eq!(
        encode(Operator::Movc, vec![a(), sum(Register::DPTR)]),
        vec![0x93]
    );
    assert_eq!(
        encode(Operator::Movc, vec![a(), sum(Register::PC)]),
        vec![0x83]
    );
    refused(Operator::Movc, vec![a(), sum(Register::A)], 1);
    refused(Operator::Movc, vec![a(), ind(0)], 1);
    refused(Operator::Movc, vec![r(0), sum(Register::PC)], 0);
    let at_dptr = || Operand::IndirectReg(Register::DPTR);
    assert_eq!(encode(Operator::Movx, vec![a(), ind(0)]), vec![0xE2]);
    assert_eq!(encode(Operator::Movx, vec![a(), ind(1)]), vec![0xE3]);
    assert_eq!(encode(Operator::Movx, vec![a(), at_dptr()]), vec![0xE0]);
    assert_eq!(encode(Operator::Movx, vec![ind(0), a()]), vec![0xF2]);
    assert_eq!(encode(Operator::Movx, vec![ind(1), a()]), vec![0xF3]);
    assert_eq!(encode(Operator::Movx, vec![at_dptr(), a()]), vec![0xF0]);
    refused(Operator::Movx, vec![a(), ind(2)], 1);
    refused(Operator::Movx, vec![a(), a()], 1);
    refused(Operator::Movx, vec![ind(2), a()], 0);
    refused(Operator::Movx, vec![at_dptr(), at_dptr()], 1);
    refused(Operator::Movx, vec![dir(1), a()], 0);
    assert_eq!(
        encode(Operator::Jmp, vec![sum(Register::DPTR)]),
        vec![0x73]
    );
    refused(Operator::Jmp, vec![sum(Register::PC)], 0);
    refused(Operator::Jmp, vec![id("here")], 0);
}

#[test]
fn relative_jumps() {
    // at 0x0100 to 0x0110: 0x10 less the length of the instruction
    assert_eq!(encode(Operator::Sjmp, vec![id("near")]), vec![0x80, 0x0E]);
    assert_eq!(encode(Operator::Jc, vec![id("near")]), vec![0x40, 0x0E]);
    assert_eq!(encode(Operator::Jnc, vec![id("near")]), vec![0x50, 0x0E]);
    assert_eq!(encode(Operator::Jz, vec![id("near")]), vec![0x60, 0x0E]);
    assert_eq!(encode(Operator::Jnz, vec![id("near")]), vec![0x70, 0x0E]);
    assert_eq!(
        encode(Operator::Jb, vec![bit(0x20), id("near")]),
        vec![0x20, 0x20, 0x0D]
    );
    assert_eq!(
        encode(Operator::Jbc, vec![bit(0x20), id("near")]),
        vec![0x10, 0x20, 0x0D]
    );
    assert_eq!(
        encode(Operator::Jnb, vec![bit(0x20), id("near")]),
        vec![0x30, 0x20, 0x0D]
    );
    assert_eq!(
        encode(Operator::Djnz, vec![r(2), id("near")]),
        vec![0xDA, 0x0E]
    );
    assert_eq!(
        encode(Operator::Djnz, vec![dir(0x30), id("near")]),
        vec![0xD5, 0x30, 0x0D]
    );
    assert_eq!(
        encode(Operator::Cjne, vec![a(), dir(0x30), id("near")]),
        vec![0xB5, 0x30, 0x0D]
    );
    assert_eq!(
        encode(Operator::Cjne, vec![a(), imm(7), id("near")]),
        vec![0xB4, 0x07, 0x0D]
    );
    assert_eq!(
        encode(Operator::Cjne, vec![a(), id("n"), id("near")]),
        vec![0xB4, 0x5A, 0x0D]
    );
    assert_eq!(
        encode(Operator::Cjne, vec![r(4), imm(7), id("near")]),
        vec![0xBC, 0x07, 0x0D]
    );
    assert_eq!(
        encode(Operator::Cjne, vec![r(4), id("n"), id("near")]),
        vec![0xBC, 0x5A, 0x0D]
    );
    assert_eq!(
        encode(Operator::Cjne, vec![ind(1), imm(7), id("near")]),
        vec![0xB7, 0x07, 0x0D]
    );
    assert_eq!(
        encode(Operator::Cjne, vec![ind(0), id("n"), id("near")]),
        vec![0xB6, 0x5A, 0x0D]
    );
}

#[test]
fn jump_to_self_and_jumps_that_wrap() {
    // a jump to itself: minus the length, modulo 256
    assert_eq!(encode(Operator::Sjmp, vec![id("here")]), vec![0x80, 0xFE]);
    assert_eq!(
        encode(Operator::Djnz, vec![dir(0x30), id("here")]),
        vec![0xD5, 0x30, 0xFD]
    );
    // out of reach: the displacement wraps, and is no error
    assert_eq!(encode(Operator::Sjmp, vec![id("far")]), vec![0x80, 0x32]);
    let table = symbols(&[("top", 0xFFFF), ("zero", 0)]);
    let jump = |name: &str| Instruction::Sjmp(label(name));
    assert_eq!(jump("zero").to_bytes(&table, 0xFFFF), Ok(vec![0x80, 0xFF]));
    assert_eq!(jump("top").to_bytes(&table, 0), Ok(vec![0x80, 0xFD]));
    assert_eq!(jump("top").to_bytes(&table, 0xFFFE), Ok(vec![0x80, 0xFF]));
    let numbered = Instruction::JbBitRel(0x01, Address::Number(0x0203));
    assert_eq!(numbered.to_bytes(&table, 0x0200), Ok(vec![0x20, 0x01, 0x00]));
}

#[test]
fn targets_of_relative_jumps_are_names() {
    refused(Operator::Sjmp, vec![imm(5)], 0);
    refused(Operator::Jz, vec![dir(5)], 0);
    refused(Operator::Jb, vec![bit(1), imm(5)], 1);
    refused(Operator::Jb, vec![dir(1), id("here")], 0);
    refused(Operator::Jnb, vec![a(), id("here")], 0);
    refused(Operator::Djnz, vec![r(1), imm(5)], 1);
    refused(Operator::Djnz, vec![a(), id("here")], 0);
    refused(Operator::Djnz, vec![ind(0), id("here")], 0);
    refused(Operator::Cjne, vec![dir(1), imm(1), id("here")], 0);
    refused(Operator::Cjne, vec![a(), imm(1), imm(2)], 2);
    refused(Operator::Cjne, vec![a(), r(1), id("here")], 1);
    refused(Operator::Cjne, vec![r(1), dir(1), id("here")], 1);
    refused(Operator::Cjne, vec![a(), imm(256), id("here")], 1);
    // a pointer that cannot be one is blamed on the second operand
    refused(Operator::Cjne, vec![ind(2), imm(1), id("here")], 1);
    refused(
        Operator::Cjne,
        vec![Operand::IndirectReg(Register::DPTR), imm(1), id("here")],
        1,
    );
}

#[test]
fn absolute_jumps_and_calls() {
    assert_eq!(encode(Operator::Ajmp, vec![imm(0x0123)]), vec![0x21, 0x23]);
    assert_eq!(encode(Operator::Acall, vec![imm(0x0123)]), vec![0x31, 0x23]);
    assert_eq!(encode(Operator::Ajmp, vec![imm(0x07FF)]), vec![0xE1, 0xFF]);
    assert_eq!(encode(Operator::Acall, vec![imm(0x07FF)]), vec![0xF1, 0xFF]);
    assert_eq!(encode(Operator::Ajmp, vec![imm(0)]), vec![0x01, 0x00]);
    assert_eq!(encode(Operator::Acall, vec![imm(2048)]), vec![0x11, 0x00]);
    assert_eq!(encode(Operator::Acall, vec![id("here")]), vec![0x31, 0x00]);
    assert_eq!(encode(Operator::Ajmp, vec![id("far")]), vec![0x41, 0x34]);
    refused(Operator::Ajmp, vec![imm(2049)], 0);
    refused(Operator::Acall, vec![imm(-1)], 0);
    refused(Operator::Acall, vec![dir(1)], 0);
    assert_eq!(
        encode(Operator::Ljmp, vec![imm(0x1234)]),
        vec![0x02, 0x12, 0x34]
    );
    assert_eq!(
        encode(Operator::Lcall, vec![imm(0xFFFF)]),
        vec![0x12, 0xFF, 0xFF]
    );
    assert_eq!(
        encode(Operator::Lcall, vec![id("far")]),
        vec![0x12, 0x12, 0x34]
    );
    assert_eq!(
        encode(Operator::Ljmp, vec![id("here")]),
        vec![0x02, 0x01, 0x00]
    );
    refused(Operator::Ljmp, vec![imm(65536)], 0);
    refused(Operator::Lcall, vec![imm(-1)], 0);
    refused(Operator::Ljmp, vec![a()], 0);
}

#[test]
fn number_of_operands() {
    let wrong = |operator, operands: Vec<Operand>, expected: u8| {
        let num = operands.len() as u8;
        assert_eq!(
            Instruction::from_code(operator, operands),
            Err(InstructionError::InvalidNumOperands {
                operator,
                num,
                expected
            })
        );
    };
    wrong(Operator::Nop, vec![a()], 0);
    wrong(Operator::Ret, vec![a(), a()], 0);
    wrong(Operator::Inc, vec![], 1);
    wrong(Operator::Inc, vec![a(), a()], 1);
    wrong(Operator::Sjmp, vec![], 1);
    wrong(Operator::Mov, vec![a()], 2);
    wrong(Operator::Mov, vec![a(), r(0), r(1)], 2);
    wrong(Operator::Add, vec![], 2);
    wrong(Operator::Djnz, vec![r(0)], 2);
    wrong(Operator::Cjne, vec![a(), imm(1)], 3);
    wrong(Operator::Cjne, vec![], 3);
    // 256 operands are not none
    let many: Vec<Operand> = (0..256).map(|_| a()).collect();
    assert_eq!(
        Instruction::from_code(Operator::Nop, many),
        Err(InstructionError::InvalidNumOperands {
            operator: Operator::Nop,
            num: 0,
            expected: 0
        })
    );
}

#[test]
fn call_is_not_supported() {
    assert_eq!(
        Instruction::from_code(Operator::Call, vec![id("here")]),
        Err(InstructionError::UnsupportedOperator(Operator::Call))
    );
    assert_eq!(
        Instruction::from_code(Operator::Call, vec![]),
        Err(InstructionError::UnsupportedOperator(Operator::Call))
    );
    assert_eq!(
        image(vec![code(Operator::Call, vec![id("here")])]),
        Err(InstructionError::UnsupportedOperator(Operator::Call))
    );
}

#[test]
fn names_are_looked_up_when_bytes_are_written() {
    let table = symbols(&[
        ("small", 255),
        ("big", 256),
        ("neg", -1),
        ("word", 65535),
        ("huge", 65536),
    ]);
    assert_eq!(Data::Number(7).to_u8(&table), Ok(7));
    assert_eq!(Data::Identifier("small".to_string()).to_u8(&table), Ok(255));
    assert_eq!(
        Data::Identifier("big".to_string()).to_u8(&table),
        Err(InstructionError::InvalidByte(256))
    );
    assert_eq!(
        Data::Identifier("neg".to_string()).to_u8(&table),
        Err(InstructionError::InvalidByte(-1))
    );
    assert_eq!(
        Data::Identifier("none".to_string()).to_u8(&table),
        Err(InstructionError::UnknownLabel("none".to_string()))
    );
    // names are told apart by case
    assert_eq!(
        Data::Identifier("Small".to_string()).to_u8(&table),
        Err(InstructionError::UnknownLabel("Small".to_string()))
    );
    assert_eq!(Address::Number(0xABCD).to_u16(&table), Ok(0xABCD));
    assert_eq!(label("word").to_u16(&table), Ok(65535));
    assert_eq!(label("big").to_u16(&table), Ok(256));
    assert_eq!(
        label("huge").to_u16(&table),
        Err(InstructionError::InvalidWord(65536))
    );
    assert_eq!(
        label("neg").to_u16(&table),
        Err(InstructionError::InvalidWord(-1))
    );
    assert_eq!(
        label("none").to_u16(&table),
        Err(InstructionError::UnknownLabel("none".to_string()))
    );
    // data is looked up before the target
    let both = Instruction::CjneADataRel(Data::Identifier("x".to_string()), label("y"));
    assert_eq!(
        both.to_bytes(&table, 0),
        Err(InstructionError::UnknownLabel("x".to_string()))
    );
    let target = Instruction::CjneADataRel(Data::Identifier("small".to_string()), label("y"));
    assert_eq!(
        target.to_bytes(&table, 0),
        Err(InstructionError::UnknownLabel("y".to_string()))
    );
}

#[test]
fn symbol_table() {
    let mut table = SymbolTable::new();
    assert!(!table.contains("x"));
    assert_eq!(table.get("x"), None);
    assert_eq!(table.insert("x".to_string(), 5), None);
    assert!(table.contains("x"));
    assert_eq!(table.get("x"), Some(5));
    assert_eq!(table.insert("x".to_string(), -7), Some(5));
    assert_eq!(table.get("x"), Some(-7));
    assert_eq!(table.get("X"), None);
}

#[test]
fn forms_that_no_source_gives_are_written_too() {
    let table = SymbolTable::new();
    assert_eq!(
        Instruction::AnlCNegBit(0x20).to_bytes(&table, 0),
        Ok(vec![0xB0, 0x20])
    );
    assert_eq!(
        Instruction::OrlCNegBit(0x20).to_bytes(&table, 0),
        Ok(vec![0xA0, 0x20])
    );
    assert_eq!(Instruction::AnlCNegBit(0x20).bytes(), 2);
    assert_eq!(Instruction::OrlCNegBit(0x20).bytes(), 2);
    assert_eq!(
        Instruction::Bytes(vec![1, 2, 3, 4, 5]).to_bytes(&table, 9),
        Ok(vec![1, 2, 3, 4, 5])
    );
    assert_eq!(Instruction::Bytes(vec![1, 2, 3, 4, 5]).bytes(), 5);
    assert_eq!(Instruction::Bytes(vec![]).bytes(), 0);
    assert_eq!(Instruction::Bytes(vec![0; 65536 + 3]).bytes(), 3);
}

#[test]
fn layout_gives_addresses_and_values() {
    let mir = Mir::from_program(Program {
        lines: vec![
            Line::EquDef {
                id: "N".to_string(),
                value: 5,
            },
            Line::OrgLine { address: 0x0100 },
            labelled("start", Operator::Mov, vec![a(), id("N")]),
            code(Operator::Ljmp, vec![id("end")]),
            Line::ProgramLine {
                label: Some(Label("table".to_string())),
                body: Some(LineBody::ValueDefinition {
                    values: vec![
                        Value::String("AB".to_string()),
                        Value::Byte(0),
                        Value::Word(0x1234),
                    ],
                }),
            },
            Line::ProgramLine {
                label: None,
                body: None,
            },
            labelled("end", Operator::Ret, vec![]),
            Line::OrgLine { address: 0x0010 },
            Line::ProgramLine {
                label: Some(Label("low".to_string())),
                body: None,
            },
        ],
    })
    .unwrap();
    assert_eq!(
        mir.instructions(),
        &vec![
            (
                0x0100,
                Instruction::MovAData(Data::Identifier("N".to_string()))
            ),
            (0x0102, Instruction::Ljmp(label("end"))),
            (
                0x0105,
                Instruction::Bytes(vec![0x41, 0x42, 0x00, 0x34, 0x12])
            ),
            (0x010A, Instruction::Ret),
        ]
    );
    let table = mir.identifiers();
    assert_eq!(table.get("N"), Some(5));
    assert_eq!(table.get("start"), Some(0x0100));
    assert_eq!(table.get("table"), Some(0x0105));
    assert_eq!(table.get("end"), Some(0x010A));
    assert_eq!(table.get("low"), Some(0x0010));
    assert_eq!(table.get("END"), None);
    assert_eq!(
        records(&mir.gen_intel_hex().unwrap()),
        vec![
            (0x0100, vec![0x74, 0x05]),
            (0x0102, vec![0x02, 0x01, 0x0A]),
            (0x0105, vec![0x41, 0x42, 0x00, 0x34, 0x12]),
            (0x010A, vec![0x22]),
        ]
    );
}

#[test]
fn layout_is_the_same_every_time() {
    let program = || Program {
        lines: vec![
            Line::OrgLine { address: 0x30 },
            labelled("a", Operator::Nop, vec![]),
            labelled("b", Operator::Sjmp, vec![id("a")]),
        ],
    };
    let first = Mir::from_program(program()).unwrap();
    let second = Mir::from_program(program()).unwrap();
    assert_eq!(first.instructions(), second.instructions());
    for name in ["a", "b", "c"] {
        assert_eq!(first.identifiers().get(name), second.identifiers().get(name));
    }
    assert_eq!(first.gen_intel_hex(), second.gen_intel_hex());
}

#[test]
fn names_are_defined_once() {
    let duplicate = |lines| {
        assert_eq!(
            image(lines),
            Err(InstructionError::DuplicateIdentifier("x".to_string()))
        )
    };
    let equ = |value| Line::EquDef {
        id: "x".to_string(),
        value,
    };
    duplicate(vec![equ(1), equ(1)]);
    duplicate(vec![equ(1), labelled("x", Operator::Nop, vec![])]);
    duplicate(vec![labelled("x", Operator::Nop, vec![]), equ(1)]);
    duplicate(vec![
        labelled("x", Operator::Nop, vec![]),
        labelled("x", Operator::Nop, vec![]),
    ]);
    // the label is defined before its line is looked at
    duplicate(vec![equ(1), labelled("x", Operator::Inc, vec![])]);
    assert_eq!(
        image(vec![equ(1), labelled("X", Operator::Nop, vec![])]),
        Ok(":0100000000FF\n:00000001FF\n".to_string())
    );
}

#[test]
fn first_failing_line_stops_the_layout() {
    assert_eq!(
        image(vec![
            code(Operator::Nop, vec![]),
            code(Operator::Inc, vec![c()]),
            code(Operator::Inc, vec![]),
        ]),
        Err(InstructionError::InvalidOperand {
            operator: Operator::Inc,
            operand: c(),
            pos: 0
        })
    );
    assert_eq!(
        image(vec![
            code(Operator::Sjmp, vec![id("nowhere")]),
            code(Operator::Mov, vec![a(), id("nothing")]),
        ]),
        Err(InstructionError::UnknownLabel("nowhere".to_string()))
    );
    assert_eq!(
        image(vec![
            Line::EquDef {
                id: "big".to_string(),
                value: 256
            },
            code(Operator::Mov, vec![a(), id("big")]),
        ]),
        Err(InstructionError::InvalidByte(256))
    );
    assert_eq!(
        image(vec![
            Line::EquDef {
                id: "huge".to_string(),
                value: 65536
            },
            code(Operator::Ljmp, vec![id("huge")]),
        ]),
        Err(InstructionError::InvalidWord(65536))
    );
}

#[test]
fn addresses_wrap_at_64k() {
    let mir = Mir::from_program(Program {
        lines: vec![
            Line::OrgLine { address: 0xFFFF },
            code(Operator::Nop, vec![]),
            labelled("wrapped", Operator::Ljmp, vec![id("wrapped")]),
            Line::ProgramLine {
                label: Some(Label("after".to_string())),
                body: None,
            },
        ],
    })
    .unwrap();
    assert_eq!(mir.identifiers().get("wrapped"), Some(0));
    assert_eq!(mir.identifiers().get("after"), Some(3));
    assert_eq!(
        records(&mir.gen_intel_hex().unwrap()),
        vec![(0xFFFF, vec![0x00]), (0x0000, vec![0x02, 0x00, 0x00])]
    );
}

#[test]
fn data_records() {
    assert_eq!(Mir::intel_hex(0, vec![0x22]), ":0100000022DD\n");
    assert_eq!(
        Mir::intel_hex(0, vec![0x75, 0xB0, 0xAA, 0x22]),
        ":0400000075B0AA220B\n"
    );
    assert_eq!(Mir::intel_hex(0x0100, vec![0x80, 0xFE]), ":0201000080FE7F\n");
    assert_eq!(Mir::intel_hex(0xABCD, vec![]), ":00ABCD0088\n");
    assert_eq!(Mir::intel_hex(0, vec![]), ":0000000000\n");
    assert_eq!(
        Mir::intel_hex(0x00FF, vec![0x0A, 0xBC, 0xDE, 0xF0]),
        ":0400FF000ABCDEF069\n"
    );
}

#[test]
fn every_record_sums_to_zero() {
    for addr in [0u16, 1, 0x00FF, 0x0100, 0x1234, 0xFFFF] {
        for len in [0usize, 1, 2, 16, 255, 256, 300] {
            let bytes: Vec<u8> = (0..len).map(|i| (i * 7 + addr as usize) as u8).collect();
            let line = Mir::intel_hex(addr, bytes.clone());
            assert!(line.ends_with('\n'));
            let fields: Vec<u8> = (1..line.len() - 1)
                .step_by(2)
                .map(|i| u8::from_str_radix(&line[i..i + 2], 16).unwrap())
                .collect();
            assert_eq!(fields.len(), len + 5);
            assert_eq!(fields[0] as usize, len % 256);
            assert_eq!(fields[1], (addr / 256) as u8);
            assert_eq!(fields[2], (addr % 256) as u8);
            assert_eq!(fields[3], 0);
            assert_eq!(&fields[4..4 + len], &bytes[..]);
            let sum: u32 = fields.iter().map(|b| *b as u32).sum();
            assert_eq!(sum % 256, 0);
        }
    }
}

#[test]
fn an_empty_program_is_the_end_record() {
    assert_eq!(image(vec![]), Ok(":00000001FF\n".to_string()));
    assert_eq!(assemble(""), ":00000001FF\n");
}

#[test]
fn source_ret() {
    assert_eq!(assemble("ret\n"), ":0100000022DD\n:00000001FF\n");
    assert_eq!(records(&assemble("ret\n")), vec![(0, vec![0x22])]);
}

#[test]
fn source_mov_port_and_ret() {
    let hex = assemble("mov P3, 0AAh\nret\n");
    assert_eq!(hex, ":0300000075B0AA2E\n:0100030022DA\n:00000001FF\n");
    let bytes: Vec<u8> = records(&hex).into_iter().flat_map(|r| r.1).collect();
    assert_eq!(bytes, vec![0x75, 0xB0, 0xAA, 0x22]);
}

#[test]
fn source_nop_and_ret() {
    let hex = assemble("nop\nret\n");
    assert_eq!(hex, ":0100000000FF\n:0100010022DC\n:00000001FF\n");
    let bytes: Vec<u8> = records(&hex).into_iter().flat_map(|r| r.1).collect();
    assert_eq!(bytes, vec![0x00, 0x22]);
}

#[test]
fn source_define_bytes() {
    let hex = assemble("db \"AB\", 0\n");
    assert_eq!(hex, ":030000004142007A\n:00000001FF\n");
    assert_eq!(records(&hex), vec![(0, vec![0x41, 0x42, 0x00])]);
}

#[test]
fn source_org_and_jump_to_self() {
    let hex = assemble("org 0100h\nstart: sjmp start\n");
    assert_eq!(hex, ":0201000080FE7F\n:00000001FF\n");
    assert_eq!(records(&hex), vec![(0x0100, vec![0x80, 0xFE])]);
}

#[test]
fn program_mov_dptr() {
    let hex = image(vec![code(Operator::Mov, vec![dptr(), imm(0x1234)])]).unwrap();
    assert_eq!(records(&hex), vec![(0, vec![0x90, 0x12, 0x34])]);
}

#[test]
fn program_equ_and_mov() {
    let hex = image(vec![
        Line::EquDef {
            id: "N".to_string(),
            value: 5,
        },
        code(Operator::Mov, vec![a(), id("N")]),
    ])
    .unwrap();
    assert_eq!(records(&hex), vec![(0, vec![0x74, 0x05])]);
}

#[test]
fn source_with_forward_reference() {
    let hex = assemble(
        "        org 0030h\n\
         loop:   inc @R0\n\
         \x20       djnz P1, loop\n\
         \x20       ljmp done\n\
         msg:    dw 1234h, 5\n\
         done:   reti\n",
    );
    assert_eq!(
        records(&hex),
        vec![
            (0x0030, vec![0x06]),
            (0x0031, vec![0xD5, 0x90, 0xFC]),
            (0x0034, vec![0x02, 0x00, 0x3B]),
            (0x0037, vec![0x34, 0x12, 0x05, 0x00]),
            (0x003B, vec![0x32]),
        ]
    );
}
