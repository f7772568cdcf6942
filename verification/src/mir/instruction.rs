//! Instructions: how a mnemonic and its operands become one, how many bytes
//! each takes, and which bytes those are.
use crate::mir::symbols::{lookup, SymbolTable};
use crate::parser::ast::{operand_views, result_view, Operand, OperandView};
use crate::parser::keywords::{Operator, Register};
use vstd::prelude::*;

verus! {

/// A 16-bit address: a number, or a name to be looked up when the bytes are
/// written.
#[derive(Clone, Debug, PartialEq)]
pub enum Address {
    Number(u16),
    Label(String),
}

pub enum AddressView {
    Number(u16),
    Label(Seq<char>),
}

impl View for Address {
    type V = AddressView;

    open spec fn view(&self) -> AddressView {
        match *self {
            Address::Number(x) => AddressView::Number(x),
            Address::Label(s) => AddressView::Label(s@),
        }
    }
}

/// A byte of data: a number, or a name to be looked up when the bytes are
/// written.
#[derive(Clone, Debug, PartialEq)]
pub enum Data {
    Number(u8),
    Identifier(String),
}

pub enum DataView {
    Number(u8),
    Identifier(Seq<char>),
}

impl View for Data {
    type V = DataView;

    open spec fn view(&self) -> DataView {
        match *self {
            Data::Number(x) => DataView::Number(x),
            Data::Identifier(s) => DataView::Identifier(s@),
        }
    }
}

/// Why an instruction could not be built or written.
#[derive(Clone, Debug, PartialEq)]
pub enum InstructionError {
    InvalidNumOperands { operator: Operator, num: u8, expected: u8 },
    InvalidOperand { operator: Operator, operand: Operand, pos: u8 },
    InvalidByte(i32),
    InvalidWord(i32),
    DuplicateIdentifier(String),
    UnknownLabel(String),
    /// The mnemonic is known, but no instruction is built for it.
    UnsupportedOperator(Operator),
}

pub enum InstructionErrorView {
    InvalidNumOperands { operator: Operator, num: u8, expected: u8 },
    InvalidOperand { operator: Operator, operand: OperandView, pos: u8 },
    InvalidByte(i32),
    InvalidWord(i32),
    DuplicateIdentifier(Seq<char>),
    UnknownLabel(Seq<char>),
    UnsupportedOperator(Operator),
}

impl View for InstructionError {
    type V = InstructionErrorView;

    open spec fn view(&self) -> InstructionErrorView {
        match *self {
            InstructionError::InvalidNumOperands { operator, num, expected } => {
                InstructionErrorView::InvalidNumOperands { operator, num, expected }
            },
            InstructionError::InvalidOperand { operator, operand, pos } => {
                InstructionErrorView::InvalidOperand { operator, operand: operand@, pos }
            },
            InstructionError::InvalidByte(x) => InstructionErrorView::InvalidByte(x),
            InstructionError::InvalidWord(x) => InstructionErrorView::InvalidWord(x),
            InstructionError::DuplicateIdentifier(s) => InstructionErrorView::DuplicateIdentifier(
                s@,
            ),
            InstructionError::UnknownLabel(s) => InstructionErrorView::UnknownLabel(s@),
            InstructionError::UnsupportedOperator(operator) => {
                InstructionErrorView::UnsupportedOperator(operator)
            },
        }
    }
}

impl AddressView {
    /// The address itself, or the value of its name, which must be in the
    /// table and fit in 16 bits.
    pub open spec fn resolve(self, symbols: Map<Seq<char>, i32>) -> Result<
        u16,
        InstructionErrorView,
    > {
        match self {
            AddressView::Number(x) => Ok(x),
            AddressView::Label(s) => match lookup(symbols, s) {
                None => Err(InstructionErrorView::UnknownLabel(s)),
                Some(x) => if x > 65535 || x < 0 {
                    Err(InstructionErrorView::InvalidWord(x))
                } else {
                    Ok(x as u16)
                },
            },
        }
    }
}

impl DataView {
    /// The byte itself, or the value of its name, which must be in the table
    /// and fit in 8 bits.
    pub open spec fn resolve(self, symbols: Map<Seq<char>, i32>) -> Result<
        u8,
        InstructionErrorView,
    > {
        match self {
            DataView::Number(x) => Ok(x),
            DataView::Identifier(s) => match lookup(symbols, s) {
                None => Err(InstructionErrorView::UnknownLabel(s)),
                Some(x) => if x > 255 || x < 0 {
                    Err(InstructionErrorView::InvalidByte(x))
                } else {
                    Ok(x as u8)
                },
            },
        }
    }
}

impl Address {
    pub fn to_u16(&self, identifiers: &SymbolTable) -> (r: Result<u16, InstructionError>)
        ensures
            result_view(r) == self@.resolve(identifiers@),
    {
        let x: i32 = match self {
            Address::Number(x) => *x as i32,
            Address::Label(s) => match identifiers.get(s.as_str()) {
                Some(x) => x,
                None => {
                    return Err(InstructionError::UnknownLabel(s.clone()));
                },
            },
        };
        if x > 65535 || x < 0 {
            Err(InstructionError::InvalidWord(x))
        } else {
            Ok(x as u16)
        }
    }
}

impl Data {
    pub fn to_u8(&self, identifiers: &SymbolTable) -> (r: Result<u8, InstructionError>)
        ensures
            result_view(r) == self@.resolve(identifiers@),
    {
        let x: i32 = match self {
            Data::Number(x) => *x as i32,
            Data::Identifier(s) => match identifiers.get(s.as_str()) {
                Some(x) => x,
                None => {
                    return Err(InstructionError::UnknownLabel(s.clone()));
                },
            },
        };
        if x > 255 || x < 0 {
            Err(InstructionError::InvalidByte(x))
        } else {
            Ok(x as u8)
        }
    }
}

/// The byte that stands for an immediate between -128 and 255: a negative
/// one in two's complement.
pub open spec fn immediate_byte(imm: i32) -> u8 {
    if imm < 0 {
        (imm + 256) as u8
    } else {
        imm as u8
    }
}

/// The displacement byte of a relative jump: the distance from the end of
/// the instruction, which is `len` bytes long and stands at `addr`, to the
/// target, modulo 256.
pub open spec fn displacement(target: u16, addr: u16, len: int) -> u8 {
    ((target - (addr + len)) % 256) as u8
}

/// The first byte of a jump or call within a 2K page: bits 8 to 10 of the
/// target in bits 5 to 7, over the opcode's own bits.
pub open spec fn page_opcode(target: u16, base: u8) -> u8 {
    (((target >> 3) & 0xE0) as u8) | base
}

pub open spec fn low_byte(x: u16) -> u8 {
    (x % 256) as u8
}

pub open spec fn high_byte(x: u16) -> u8 {
    (x / 256) as u8
}

fn byte_of(imm: i32) -> (b: u8)
    requires
        -128 <= imm <= 255,
    ensures
        b == immediate_byte(imm),
{
    if imm < 0 {
        (imm + 256) as u8
    } else {
        imm as u8
    }
}

fn rel_byte(target: u16, addr: u16, len: u8) -> (b: u8)
    requires
        len <= 3,
    ensures
        b == displacement(target, addr, len as int),
{
    let end: u32 = addr as u32 + len as u32;
    let d: u32 = (target as u32 + 0x10100 - end) % 256;
    d as u8
}

fn page_byte(target: u16, base: u8) -> (b: u8)
    ensures
        b == page_opcode(target, base),
{
    let page: u16 = (target >> 3) & 0xE0;
    assert(page < 256) by (bit_vector)
        requires
            page == (target >> 3) & 0xE0,
    ;
    (page as u8) | base
}

fn one(a: u8) -> (v: Vec<u8>)
    ensures
        v@ == seq![a],
{
    vec![a]
}

fn two(a: u8, b: u8) -> (v: Vec<u8>)
    ensures
        v@ == seq![a, b],
{
    vec![a, b]
}

fn three(a: u8, b: u8, c: u8) -> (v: Vec<u8>)
    ensures
        v@ == seq![a, b, c],
{
    vec![a, b, c]
}

fn low(x: u16) -> (b: u8)
    ensures
        b == low_byte(x),
{
    (x % 256) as u8
}

fn high(x: u16) -> (b: u8)
    ensures
        b == high_byte(x),
{
    (x / 256) as u8
}

impl OperandView {
    pub open spec fn is_acc(self) -> bool {
        self == OperandView::Register(Register::A)
    }

    pub open spec fn is_carry(self) -> bool {
        self == OperandView::Register(Register::C)
    }

    pub open spec fn is_dptr(self) -> bool {
        self == OperandView::Register(Register::DPTR)
    }

    /// The special function register B, by its direct address.
    pub open spec fn is_b(self) -> bool {
        self == OperandView::Direct(0xF0)
    }

    /// The number of a working register.
    pub open spec fn working(self) -> Option<u8> {
        match self {
            OperandView::Register(Register::R(r)) => Some(r),
            _ => None,
        }
    }

    pub open spec fn direct(self) -> Option<u8> {
        match self {
            OperandView::Direct(addr) => Some(addr),
            _ => None,
        }
    }

    /// A direct address other than the accumulator's, 0xE0.
    pub open spec fn direct_not_acc(self) -> Option<u8> {
        match self {
            OperandView::Direct(addr) => if addr != 0xE0 {
                Some(addr)
            } else {
                None
            },
            _ => None,
        }
    }

    pub open spec fn bit(self) -> Option<u8> {
        match self {
            OperandView::DirectBit(addr) => Some(addr),
            _ => None,
        }
    }

    /// Any register taken as a pointer.
    pub open spec fn is_indirect(self) -> bool {
        self is IndirectReg
    }

    /// The number of a working register taken as a pointer: only R0 and R1
    /// can be.
    pub open spec fn indirect(self) -> Option<u8> {
        match self {
            OperandView::IndirectReg(Register::R(r)) => if r < 2 {
                Some(r)
            } else {
                None
            },
            _ => None,
        }
    }

    pub open spec fn is_indirect_dptr(self) -> bool {
        self == OperandView::IndirectReg(Register::DPTR)
    }

    pub open spec fn is_acc_plus_dptr(self) -> bool {
        self == OperandView::IndirectSum(Register::A, Register::DPTR)
    }

    pub open spec fn is_acc_plus_pc(self) -> bool {
        self == OperandView::IndirectSum(Register::A, Register::PC)
    }

    /// A byte of immediate data: a number between -128 and 255, or a name.
    pub open spec fn byte_data(self) -> Option<DataView> {
        match self {
            OperandView::Immediate(imm) => if -128 <= imm && imm <= 255 {
                Some(DataView::Number(immediate_byte(imm)))
            } else {
                None
            },
            OperandView::ImmediateId(id) => Some(DataView::Identifier(id)),
            _ => None,
        }
    }

    /// The target of a relative jump: a name.
    pub open spec fn label(self) -> Option<AddressView> {
        match self {
            OperandView::ImmediateId(id) => Some(AddressView::Label(id)),
            _ => None,
        }
    }

    /// The target of a jump or call within a page: a number between 0 and
    /// 2048, or a name.
    pub open spec fn page_target(self) -> Option<AddressView> {
        match self {
            OperandView::Immediate(addr) => if 0 <= addr && addr <= 2048 {
                Some(AddressView::Number(addr as u16))
            } else {
                None
            },
            OperandView::ImmediateId(id) => Some(AddressView::Label(id)),
            _ => None,
        }
    }

    /// A 16-bit target or value: a number between 0 and 65535, or a name.
    pub open spec fn long_target(self) -> Option<AddressView> {
        match self {
            OperandView::Immediate(addr) => if 0 <= addr && addr < 65536 {
                Some(AddressView::Number(addr as u16))
            } else {
                None
            },
            OperandView::ImmediateId(id) => Some(AddressView::Label(id)),
            _ => None,
        }
    }
}

/// The error that blames the operand at `pos`.
pub open spec fn invalid(operator: Operator, ops: Seq<OperandView>, pos: int) -> Result<
    InstructionView,
    InstructionErrorView,
> {
    Err(InstructionErrorView::InvalidOperand { operator, operand: ops[pos], pos: pos as u8 })
}

/// One instruction in one of its addressing forms, or a run of data bytes.
/// Register numbers, direct addresses and bit addresses are held as they
/// are; data and targets may still be names.
#[derive(Clone, Debug, PartialEq)]
pub enum Instruction {
    Acall(Address),
    AddAReg(u8),
    AddADirect(u8),
    AddAIndirReg(u8),
    AddAData(Data),
    AddcAReg(u8),
    AddcADirect(u8),
    AddcAIndirReg(u8),
    AddcAData(Data),
    Ajmp(Address),
    AnlAReg(u8),
    AnlADirect(u8),
    AnlAIndirReg(u8),
    AnlAData(Data),
    AnlDirectA(u8),
    AnlDirectData(u8, Data),
    AnlCBit(u8),
    AnlCNegBit(u8),
    CjneADirRel(u8, Address),
    CjneADataRel(Data, Address),
    CjneRegDataRel(u8, Data, Address),
    CjneIndirRegDataRel(u8, Data, Address),
    ClrA,
    ClrC,
    ClrBit(u8),
    CplA,
    CplC,
    CplBit(u8),
    DaA,
    DecA,
    DecReg(u8),
    DecDirect(u8),
    DecIndirReg(u8),
    DivAB,
    DjnzRegRel(u8, Address),
    DjnzDirectRel(u8, Address),
    IncA,
    IncReg(u8),
    IncDirect(u8),
    IncIndirReg(u8),
    IncDptr,
    JbBitRel(u8, Address),
    JbcBitRel(u8, Address),
    JcRel(Address),
    JmpIndirAPlusDptr,
    JnbBitRel(u8, Address),
    JncRel(Address),
    JnzRel(Address),
    JzRel(Address),
    Lcall(Address),
    Ljmp(Address),
    MovAReg(u8),
    MovADirect(u8),
    MovAIndirReg(u8),
    MovAData(Data),
    MovRegA(u8),
    MovRegDir(u8, u8),
    MovRegData(u8, Data),
    MovDirectA(u8),
    MovDirectReg(u8, u8),
    MovDirectDirect(u8, u8),
    MovDirectIndirReg(u8, u8),
    MovDirectData(u8, Data),
    MovIndirRegA(u8),
    MovIndirRegDirect(u8, u8),
    MovIndirRegData(u8, Data),
    MovCBit(u8),
    MovBitC(u8),
    MovDptrData(Address),
    MovcAIndirAPlusDptr,
    MovcAIndirAPlusPc,
    MovxAIndirReg(u8),
    MovxAIndirDptr,
    MovxIndirRegA(u8),
    MovxIndirDptrA,
    MulAB,
    Nop,
    OrlAReg(u8),
    OrlADirect(u8),
    OrlAIndirReg(u8),
    OrlAData(Data),
    OrlDirectA(u8),
    OrlDirectData(u8, Data),
    OrlCBit(u8),
    OrlCNegBit(u8),
    PopDirect(u8),
    PushDirect(u8),
    Ret,
    Reti,
    RlA,
    RlcA,
    RrA,
    RrcA,
    SetbC,
    SetbBit(u8),
    Sjmp(Address),
    SubbAReg(u8),
    SubbADirect(u8),
    SubbAIndirReg(u8),
    SubbAData(Data),
    SwapA,
    XchAReg(u8),
    XchADirect(u8),
    XchAIndirReg(u8),
    XchdAIndirReg(u8),
    XrlAReg(u8),
    XrlADirect(u8),
    XrlAIndirReg(u8),
    XrlAData(Data),
    XrlDirectA(u8),
    XrlDirectData(u8, Data),
    Bytes(Vec<u8>),
}

pub enum InstructionView {
    Acall(AddressView),
    AddAReg(u8),
    AddADirect(u8),
    AddAIndirReg(u8),
    AddAData(DataView),
    AddcAReg(u8),
    AddcADirect(u8),
    AddcAIndirReg(u8),
    AddcAData(DataView),
    Ajmp(AddressView),
    AnlAReg(u8),
    AnlADirect(u8),
    AnlAIndirReg(u8),
    AnlAData(DataView),
    AnlDirectA(u8),
    AnlDirectData(u8, DataView),
    AnlCBit(u8),
    AnlCNegBit(u8),
    CjneADirRel(u8, AddressView),
    CjneADataRel(DataView, AddressView),
    CjneRegDataRel(u8, DataView, AddressView),
    CjneIndirRegDataRel(u8, DataView, AddressView),
    ClrA,
    ClrC,
    ClrBit(u8),
    CplA,
    CplC,
    CplBit(u8),
    DaA,
    DecA,
    DecReg(u8),
    DecDirect(u8),
    DecIndirReg(u8),
    DivAB,
    DjnzRegRel(u8, AddressView),
    DjnzDirectRel(u8, AddressView),
    IncA,
    IncReg(u8),
    IncDirect(u8),
    IncIndirReg(u8),
    IncDptr,
    JbBitRel(u8, AddressView),
    JbcBitRel(u8, AddressView),
    JcRel(AddressView),
    JmpIndirAPlusDptr,
    JnbBitRel(u8, AddressView),
    JncRel(AddressView),
    JnzRel(AddressView),
    JzRel(AddressView),
    Lcall(AddressView),
    Ljmp(AddressView),
    MovAReg(u8),
    MovADirect(u8),
    MovAIndirReg(u8),
    MovAData(DataView),
    MovRegA(u8),
    MovRegDir(u8, u8),
    MovRegData(u8, DataView),
    MovDirectA(u8),
    MovDirectReg(u8, u8),
    MovDirectDirect(u8, u8),
    MovDirectIndirReg(u8, u8),
    MovDirectData(u8, DataView),
    MovIndirRegA(u8),
    MovIndirRegDirect(u8, u8),
    MovIndirRegData(u8, DataView),
    MovCBit(u8),
    MovBitC(u8),
    MovDptrData(AddressView),
    MovcAIndirAPlusDptr,
    MovcAIndirAPlusPc,
    MovxAIndirReg(u8),
    MovxAIndirDptr,
    MovxIndirRegA(u8),
    MovxIndirDptrA,
    MulAB,
    Nop,
    OrlAReg(u8),
    OrlADirect(u8),
    OrlAIndirReg(u8),
    OrlAData(DataView),
    OrlDirectA(u8),
    OrlDirectData(u8, DataView),
    OrlCBit(u8),
    OrlCNegBit(u8),
    PopDirect(u8),
    PushDirect(u8),
    Ret,
    Reti,
    RlA,
    RlcA,
    RrA,
    RrcA,
    SetbC,
    SetbBit(u8),
    Sjmp(AddressView),
    SubbAReg(u8),
    SubbADirect(u8),
    SubbAIndirReg(u8),
    SubbAData(DataView),
    SwapA,
    XchAReg(u8),
    XchADirect(u8),
    XchAIndirReg(u8),
    XchdAIndirReg(u8),
    XrlAReg(u8),
    XrlADirect(u8),
    XrlAIndirReg(u8),
    XrlAData(DataView),
    XrlDirectA(u8),
    XrlDirectData(u8, DataView),
    Bytes(Seq<u8>),
}

impl View for Instruction {
    type V = InstructionView;

    open spec fn view(&self) -> InstructionView {
        match *self {
            Instruction::Acall(addr) => InstructionView::Acall(addr@),
            Instruction::AddAReg(r) => InstructionView::AddAReg(r),
            Instruction::AddADirect(dir) => InstructionView::AddADirect(dir),
            Instruction::AddAIndirReg(r) => InstructionView::AddAIndirReg(r),
            Instruction::AddAData(data) => InstructionView::AddAData(data@),
            Instruction::AddcAReg(r) => InstructionView::AddcAReg(r),
            Instruction::AddcADirect(dir) => InstructionView::AddcADirect(dir),
            Instruction::AddcAIndirReg(r) => InstructionView::AddcAIndirReg(r),
            Instruction::AddcAData(data) => InstructionView::AddcAData(data@),
            Instruction::Ajmp(addr) => InstructionView::Ajmp(addr@),
            Instruction::AnlAReg(r) => InstructionView::AnlAReg(r),
            Instruction::AnlADirect(dir) => InstructionView::AnlADirect(dir),
            Instruction::AnlAIndirReg(r) => InstructionView::AnlAIndirReg(r),
            Instruction::AnlAData(data) => InstructionView::AnlAData(data@),
            Instruction::AnlDirectA(dir) => InstructionView::AnlDirectA(dir),
            Instruction::AnlDirectData(dir, data) => InstructionView::AnlDirectData(dir, data@),
            Instruction::AnlCBit(bit) => InstructionView::AnlCBit(bit),
            Instruction::AnlCNegBit(bit) => InstructionView::AnlCNegBit(bit),
            Instruction::CjneADirRel(dir, addr) => InstructionView::CjneADirRel(dir, addr@),
            Instruction::CjneADataRel(data, addr) => InstructionView::CjneADataRel(data@, addr@),
            Instruction::CjneRegDataRel(r, data, addr) => {
                InstructionView::CjneRegDataRel(r, data@, addr@)
            },
            Instruction::CjneIndirRegDataRel(r, data, addr) => {
                InstructionView::CjneIndirRegDataRel(r, data@, addr@)
            },
            Instruction::ClrA => InstructionView::ClrA,
            Instruction::ClrC => InstructionView::ClrC,
            Instruction::ClrBit(bit) => InstructionView::ClrBit(bit),
            Instruction::CplA => InstructionView::CplA,
            Instruction::CplC => InstructionView::CplC,
            Instruction::CplBit(bit) => InstructionView::CplBit(bit),
            Instruction::DaA => InstructionView::DaA,
            Instruction::DecA => InstructionView::DecA,
            Instruction::DecReg(r) => InstructionView::DecReg(r),
            Instruction::DecDirect(dir) => InstructionView::DecDirect(dir),
            Instruction::DecIndirReg(r) => InstructionView::DecIndirReg(r),
            Instruction::DivAB => InstructionView::DivAB,
            Instruction::DjnzRegRel(r, addr) => InstructionView::DjnzRegRel(r, addr@),
            Instruction::DjnzDirectRel(dir, addr) => InstructionView::DjnzDirectRel(dir, addr@),
            Instruction::IncA => InstructionView::IncA,
            Instruction::IncReg(r) => InstructionView::IncReg(r),
            Instruction::IncDirect(dir) => InstructionView::IncDirect(dir),
            Instruction::IncIndirReg(r) => InstructionView::IncIndirReg(r),
            Instruction::IncDptr => InstructionView::IncDptr,
            Instruction::JbBitRel(bit, addr) => InstructionView::JbBitRel(bit, addr@),
            Instruction::JbcBitRel(bit, addr) => InstructionView::JbcBitRel(bit, addr@),
            Instruction::JcRel(addr) => InstructionView::JcRel(addr@),
            Instruction::JmpIndirAPlusDptr => InstructionView::JmpIndirAPlusDptr,
            Instruction::JnbBitRel(bit, addr) => InstructionView::JnbBitRel(bit, addr@),
            Instruction::JncRel(addr) => InstructionView::JncRel(addr@),
            Instruction::JnzRel(addr) => InstructionView::JnzRel(addr@),
            Instruction::JzRel(addr) => InstructionView::JzRel(addr@),
            Instruction::Lcall(addr) => InstructionView::Lcall(addr@),
            Instruction::Ljmp(addr) => InstructionView::Ljmp(addr@),
            Instruction::MovAReg(r) => InstructionView::MovAReg(r),
            Instruction::MovADirect(dir) => InstructionView::MovADirect(dir),
            Instruction::MovAIndirReg(r) => InstructionView::MovAIndirReg(r),
            Instruction::MovAData(data) => InstructionView::MovAData(data@),
            Instruction::MovRegA(r) => InstructionView::MovRegA(r),
            Instruction::MovRegDir(r, dir) => InstructionView::MovRegDir(r, dir),
            Instruction::MovRegData(r, data) => InstructionView::MovRegData(r, data@),
            Instruction::MovDirectA(dir) => InstructionView::MovDirectA(dir),
            Instruction::MovDirectReg(dir, r) => InstructionView::MovDirectReg(dir, r),
            Instruction::MovDirectDirect(dir, dir2) => InstructionView::MovDirectDirect(dir, dir2),
            Instruction::MovDirectIndirReg(dir, r) => InstructionView::MovDirectIndirReg(dir, r),
            Instruction::MovDirectData(dir, data) => InstructionView::MovDirectData(dir, data@),
            Instruction::MovIndirRegA(r) => InstructionView::MovIndirRegA(r),
            Instruction::MovIndirRegDirect(r, dir) => InstructionView::MovIndirRegDirect(r, dir),
            Instruction::MovIndirRegData(r, data) => InstructionView::MovIndirRegData(r, data@),
            Instruction::MovCBit(bit) => InstructionView::MovCBit(bit),
            Instruction::MovBitC(bit) => InstructionView::MovBitC(bit),
            Instruction::MovDptrData(addr) => InstructionView::MovDptrData(addr@),
            Instruction::MovcAIndirAPlusDptr => InstructionView::MovcAIndirAPlusDptr,
            Instruction::MovcAIndirAPlusPc => InstructionView::MovcAIndirAPlusPc,
            Instruction::MovxAIndirReg(r) => InstructionView::MovxAIndirReg(r),
            Instruction::MovxAIndirDptr => InstructionView::MovxAIndirDptr,
            Instruction::MovxIndirRegA(r) => InstructionView::MovxIndirRegA(r),
            Instruction::MovxIndirDptrA => InstructionView::MovxIndirDptrA,
            Instruction::MulAB => InstructionView::MulAB,
            Instruction::Nop => InstructionView::Nop,
            Instruction::OrlAReg(r) => InstructionView::OrlAReg(r),
            Instruction::OrlADirect(dir) => InstructionView::OrlADirect(dir),
            Instruction::OrlAIndirReg(r) => InstructionView::OrlAIndirReg(r),
            Instruction::OrlAData(data) => InstructionView::OrlAData(data@),
            Instruction::OrlDirectA(dir) => InstructionView::OrlDirectA(dir),
            Instruction::OrlDirectData(dir, data) => InstructionView::OrlDirectData(dir, data@),
            Instruction::OrlCBit(bit) => InstructionView::OrlCBit(bit),
            Instruction::OrlCNegBit(bit) => InstructionView::OrlCNegBit(bit),
            Instruction::PopDirect(dir) => InstructionView::PopDirect(dir),
            Instruction::PushDirect(dir) => InstructionView::PushDirect(dir),
            Instruction::Ret => InstructionView::Ret,
            Instruction::Reti => InstructionView::Reti,
            Instruction::RlA => InstructionView::RlA,
            Instruction::RlcA => InstructionView::RlcA,
            Instruction::RrA => InstructionView::RrA,
            Instruction::RrcA => InstructionView::RrcA,
            Instruction::SetbC => InstructionView::SetbC,
            Instruction::SetbBit(bit) => InstructionView::SetbBit(bit),
            Instruction::Sjmp(addr) => InstructionView::Sjmp(addr@),
            Instruction::SubbAReg(r) => InstructionView::SubbAReg(r),
            Instruction::SubbADirect(dir) => InstructionView::SubbADirect(dir),
            Instruction::SubbAIndirReg(r) => InstructionView::SubbAIndirReg(r),
            Instruction::SubbAData(data) => InstructionView::SubbAData(data@),
            Instruction::SwapA => InstructionView::SwapA,
            Instruction::XchAReg(r) => InstructionView::XchAReg(r),
            Instruction::XchADirect(dir) => InstructionView::XchADirect(dir),
            Instruction::XchAIndirReg(r) => InstructionView::XchAIndirReg(r),
            Instruction::XchdAIndirReg(r) => InstructionView::XchdAIndirReg(r),
            Instruction::XrlAReg(r) => InstructionView::XrlAReg(r),
            Instruction::XrlADirect(dir) => InstructionView::XrlADirect(dir),
            Instruction::XrlAIndirReg(r) => InstructionView::XrlAIndirReg(r),
            Instruction::XrlAData(data) => InstructionView::XrlAData(data@),
            Instruction::XrlDirectA(dir) => InstructionView::XrlDirectA(dir),
            Instruction::XrlDirectData(dir, data) => InstructionView::XrlDirectData(dir, data@),
            Instruction::Bytes(v) => InstructionView::Bytes(v@),
        }
    }
}

impl InstructionView {
    /// The number of bytes that the instruction takes in the image. The
    /// addressing form alone decides it; a run of data takes its length.
    pub open spec fn size(self) -> nat {
        match self {
            InstructionView::Acall(_) => 2,
            InstructionView::AddAReg(_) => 1,
            InstructionView::AddADirect(_) => 2,
            InstructionView::AddAIndirReg(_) => 1,
            InstructionView::AddAData(_) => 2,
            InstructionView::AddcAReg(_) => 1,
            InstructionView::AddcADirect(_) => 2,
            InstructionView::AddcAIndirReg(_) => 1,
            InstructionView::AddcAData(_) => 2,
            InstructionView::Ajmp(_) => 2,
            InstructionView::AnlAReg(_) => 1,
            InstructionView::AnlADirect(_) => 2,
            InstructionView::AnlAIndirReg(_) => 1,
            InstructionView::AnlAData(_) => 2,
            InstructionView::AnlDirectA(_) => 2,
            InstructionView::AnlDirectData(_, _) => 3,
            InstructionView::AnlCBit(_) => 2,
            InstructionView::AnlCNegBit(_) => 2,
            InstructionView::CjneADirRel(_, _) => 3,
            InstructionView::CjneADataRel(_, _) => 3,
            InstructionView::CjneRegDataRel(_, _, _) => 3,
            InstructionView::CjneIndirRegDataRel(_, _, _) => 3,
            InstructionView::ClrA => 1,
            InstructionView::ClrC => 1,
            InstructionView::ClrBit(_) => 2,
            InstructionView::CplA => 1,
            InstructionView::CplC => 1,
            InstructionView::CplBit(_) => 2,
            InstructionView::DaA => 1,
            InstructionView::DecA => 1,
            InstructionView::DecReg(_) => 1,
            InstructionView::DecDirect(_) => 2,
            InstructionView::DecIndirReg(_) => 1,
            InstructionView::DivAB => 1,
            InstructionView::DjnzRegRel(_, _) => 2,
            InstructionView::DjnzDirectRel(_, _) => 3,
            InstructionView::IncA => 1,
            InstructionView::IncReg(_) => 1,
            InstructionView::IncDirect(_) => 2,
            InstructionView::IncIndirReg(_) => 1,
            InstructionView::IncDptr => 1,
            InstructionView::JbBitRel(_, _) => 3,
            InstructionView::JbcBitRel(_, _) => 3,
            InstructionView::JcRel(_) => 2,
            InstructionView::JmpIndirAPlusDptr => 1,
            InstructionView::JnbBitRel(_, _) => 3,
            InstructionView::JncRel(_) => 2,
            InstructionView::JnzRel(_) => 2,
            InstructionView::JzRel(_) => 2,
            InstructionView::Lcall(_) => 3,
            InstructionView::Ljmp(_) => 3,
            InstructionView::MovAReg(_) => 1,
            InstructionView::MovADirect(_) => 2,
            InstructionView::MovAIndirReg(_) => 1,
            InstructionView::MovAData(_) => 2,
            InstructionView::MovRegA(_) => 1,
            InstructionView::MovRegDir(_, _) => 2,
            InstructionView::MovRegData(_, _) => 2,
            InstructionView::MovDirectA(_) => 2,
            InstructionView::MovDirectReg(_, _) => 2,
            InstructionView::MovDirectDirect(_, _) => 3,
            InstructionView::MovDirectIndirReg(_, _) => 2,
            InstructionView::MovDirectData(_, _) => 3,
            InstructionView::MovIndirRegA(_) => 1,
            InstructionView::MovIndirRegDirect(_, _) => 2,
            InstructionView::MovIndirRegData(_, _) => 2,
            InstructionView::MovCBit(_) => 2,
            InstructionView::MovBitC(_) => 2,
            InstructionView::MovDptrData(_) => 3,
            InstructionView::MovcAIndirAPlusDptr => 1,
            InstructionView::MovcAIndirAPlusPc => 1,
            InstructionView::MovxAIndirReg(_) => 1,
            InstructionView::MovxAIndirDptr => 1,
            InstructionView::MovxIndirRegA(_) => 1,
            InstructionView::MovxIndirDptrA => 1,
            InstructionView::MulAB => 1,
            InstructionView::Nop => 1,
            InstructionView::OrlAReg(_) => 1,
            InstructionView::OrlADirect(_) => 2,
            InstructionView::OrlAIndirReg(_) => 1,
            InstructionView::OrlAData(_) => 2,
            InstructionView::OrlDirectA(_) => 2,
            InstructionView::OrlDirectData(_, _) => 3,
            InstructionView::OrlCBit(_) => 2,
            InstructionView::OrlCNegBit(_) => 2,
            InstructionView::PopDirect(_) => 2,
            InstructionView::PushDirect(_) => 2,
            InstructionView::Ret => 1,
            InstructionView::Reti => 1,
            InstructionView::RlA => 1,
            InstructionView::RlcA => 1,
            InstructionView::RrA => 1,
            InstructionView::RrcA => 1,
            InstructionView::SetbC => 1,
            InstructionView::SetbBit(_) => 2,
            InstructionView::Sjmp(_) => 2,
            InstructionView::SubbAReg(_) => 1,
            InstructionView::SubbADirect(_) => 2,
            InstructionView::SubbAIndirReg(_) => 1,
            InstructionView::SubbAData(_) => 2,
            InstructionView::SwapA => 1,
            InstructionView::XchAReg(_) => 1,
            InstructionView::XchADirect(_) => 2,
            InstructionView::XchAIndirReg(_) => 1,
            InstructionView::XchdAIndirReg(_) => 1,
            InstructionView::XrlAReg(_) => 1,
            InstructionView::XrlADirect(_) => 2,
            InstructionView::XrlAIndirReg(_) => 1,
            InstructionView::XrlAData(_) => 2,
            InstructionView::XrlDirectA(_) => 2,
            InstructionView::XrlDirectData(_, _) => 3,
            InstructionView::Bytes(v) => v.len(),
        }
    }

    /// The target of the instruction, where it is a relative jump.
    pub open spec fn relative_target(self) -> Option<AddressView> {
        match self {
            InstructionView::CjneADirRel(_, addr) => Some(addr),
            InstructionView::CjneADataRel(_, addr) => Some(addr),
            InstructionView::CjneRegDataRel(_, _, addr) => Some(addr),
            InstructionView::CjneIndirRegDataRel(_, _, addr) => Some(addr),
            InstructionView::DjnzRegRel(_, addr) => Some(addr),
            InstructionView::DjnzDirectRel(_, addr) => Some(addr),
            InstructionView::JbBitRel(_, addr) => Some(addr),
            InstructionView::JbcBitRel(_, addr) => Some(addr),
            InstructionView::JcRel(addr) => Some(addr),
            InstructionView::JnbBitRel(_, addr) => Some(addr),
            InstructionView::JncRel(addr) => Some(addr),
            InstructionView::JnzRel(addr) => Some(addr),
            InstructionView::JzRel(addr) => Some(addr),
            InstructionView::Sjmp(addr) => Some(addr),
            _ => None,
        }
    }

    /// The number of the working register that the instruction takes as a
    /// pointer, where it takes one.
    pub open spec fn pointer(self) -> Option<u8> {
        match self {
            InstructionView::AddAIndirReg(r) => Some(r),
            InstructionView::AddcAIndirReg(r) => Some(r),
            InstructionView::AnlAIndirReg(r) => Some(r),
            InstructionView::CjneIndirRegDataRel(r, _, _) => Some(r),
            InstructionView::DecIndirReg(r) => Some(r),
            InstructionView::IncIndirReg(r) => Some(r),
            InstructionView::MovAIndirReg(r) => Some(r),
            InstructionView::MovDirectIndirReg(_, r) => Some(r),
            InstructionView::MovIndirRegA(r) => Some(r),
            InstructionView::MovIndirRegDirect(r, _) => Some(r),
            InstructionView::MovIndirRegData(r, _) => Some(r),
            InstructionView::MovxAIndirReg(r) => Some(r),
            InstructionView::MovxIndirRegA(r) => Some(r),
            InstructionView::OrlAIndirReg(r) => Some(r),
            InstructionView::SubbAIndirReg(r) => Some(r),
            InstructionView::XchAIndirReg(r) => Some(r),
            InstructionView::XchdAIndirReg(r) => Some(r),
            InstructionView::XrlAIndirReg(r) => Some(r),
            _ => None,
        }
    }

    /// The bytes of the instruction when it stands at `addr`, with names
    /// read from `symbols`. Data is resolved before a target, and the first
    /// name that fails gives the error.
    pub open spec fn encode(self, symbols: Map<Seq<char>, i32>, addr: u16) -> Result<
        Seq<u8>,
        InstructionErrorView,
    > {
        match self {
            InstructionView::Acall(to) => match to.resolve(symbols) {
                Err(e) => Err(e),
                Ok(target) => Ok(seq![page_opcode(target, 0x11), low_byte(target)]),
            },
            InstructionView::AddAReg(r) => Ok(seq![0x28u8 | r]),
            InstructionView::AddADirect(dir) => Ok(seq![0x25u8, dir]),
            InstructionView::AddAIndirReg(r) => Ok(seq![0x26u8 | r]),
            InstructionView::AddAData(data) => match data.resolve(symbols) {
                Err(e) => Err(e),
                Ok(data) => Ok(seq![0x24u8, data]),
            },
            InstructionView::AddcAReg(r) => Ok(seq![0x38u8 | r]),
            InstructionView::AddcADirect(dir) => Ok(seq![0x35u8, dir]),
            InstructionView::AddcAIndirReg(r) => Ok(seq![0x36u8 | r]),
            InstructionView::AddcAData(data) => match data.resolve(symbols) {
                Err(e) => Err(e),
                Ok(data) => Ok(seq![0x34u8, data]),
            },
            InstructionView::Ajmp(to) => match to.resolve(symbols) {
                Err(e) => Err(e),
                Ok(target) => Ok(seq![page_opcode(target, 0x01), low_byte(target)]),
            },
            InstructionView::AnlAReg(r) => Ok(seq![0x58u8 | r]),
            InstructionView::AnlADirect(dir) => Ok(seq![0x55u8, dir]),
            InstructionView::AnlAIndirReg(r) => Ok(seq![0x56u8 | r]),
            InstructionView::AnlAData(data) => match data.resolve(symbols) {
                Err(e) => Err(e),
                Ok(data) => Ok(seq![0x54u8, data]),
            },
            InstructionView::AnlDirectA(dir) => Ok(seq![0x52u8, dir]),
            InstructionView::AnlDirectData(dir, data) => match data.resolve(symbols) {
                Err(e) => Err(e),
                Ok(data) => Ok(seq![0x53u8, dir, data]),
            },
            InstructionView::AnlCBit(bit) => Ok(seq![0x82u8, bit]),
            InstructionView::AnlCNegBit(bit) => Ok(seq![0xB0u8, bit]),
            InstructionView::CjneADirRel(dir, to) => match to.resolve(symbols) {
                Err(e) => Err(e),
                Ok(target) => Ok(seq![0xB5u8, dir, displacement(target, addr, 3)]),
            },
            InstructionView::CjneADataRel(data, to) => match data.resolve(symbols) {
                Err(e) => Err(e),
                Ok(data) => match to.resolve(symbols) {
                    Err(e) => Err(e),
                    Ok(target) => Ok(seq![0xB4u8, data, displacement(target, addr, 3)]),
                },
            },
            InstructionView::CjneRegDataRel(r, data, to) => match data.resolve(symbols) {
                Err(e) => Err(e),
                Ok(data) => match to.resolve(symbols) {
                    Err(e) => Err(e),
                    Ok(target) => Ok(seq![0xB8u8 | r, data, displacement(target, addr, 3)]),
                },
            },
            InstructionView::CjneIndirRegDataRel(r, data, to) => match data.resolve(symbols) {
                Err(e) => Err(e),
                Ok(data) => match to.resolve(symbols) {
                    Err(e) => Err(e),
                    Ok(target) => Ok(seq![0xB6u8 | r, data, displacement(target, addr, 3)]),
                },
            },
            InstructionView::ClrA => Ok(seq![0xE4u8]),
            InstructionView::ClrC => Ok(seq![0xC3u8]),
            InstructionView::ClrBit(bit) => Ok(seq![0xC2u8, bit]),
            InstructionView::CplA => Ok(seq![0xF4u8]),
            InstructionView::CplC => Ok(seq![0xB3u8]),
            InstructionView::CplBit(bit) => Ok(seq![0xB2u8, bit]),
            InstructionView::DaA => Ok(seq![0xD4u8]),
            InstructionView::DecA => Ok(seq![0x14u8]),
            InstructionView::DecReg(r) => Ok(seq![0x18u8 | r]),
            InstructionView::DecDirect(dir) => Ok(seq![0x15u8, dir]),
            InstructionView::DecIndirReg(r) => Ok(seq![0x16u8 | r]),
            InstructionView::DivAB => Ok(seq![0x84u8]),
            InstructionView::DjnzRegRel(r, to) => match to.resolve(symbols) {
                Err(e) => Err(e),
                Ok(target) => Ok(seq![0xD8u8 | r, displacement(target, addr, 2)]),
            },
            InstructionView::DjnzDirectRel(dir, to) => match to.resolve(symbols) {
                Err(e) => Err(e),
                Ok(target) => Ok(seq![0xD5u8, dir, displacement(target, addr, 3)]),
            },
            InstructionView::IncA => Ok(seq![0x04u8]),
            InstructionView::IncReg(r) => Ok(seq![0x08u8 | r]),
            InstructionView::IncDirect(dir) => Ok(seq![0x05u8, dir]),
            InstructionView::IncIndirReg(r) => Ok(seq![0x06u8 | r]),
            InstructionView::IncDptr => Ok(seq![0xA3u8]),
            InstructionView::JbBitRel(bit, to) => match to.resolve(symbols) {
                Err(e) => Err(e),
                Ok(target) => Ok(seq![0x20u8, bit, displacement(target, addr, 3)]),
            },
            InstructionView::JbcBitRel(bit, to) => match to.resolve(symbols) {
                Err(e) => Err(e),
                Ok(target) => Ok(seq![0x10u8, bit, displacement(target, addr, 3)]),
            },
            InstructionView::JcRel(to) => match to.resolve(symbols) {
                Err(e) => Err(e),
                Ok(target) => Ok(seq![0x40u8, displacement(target, addr, 2)]),
            },
            InstructionView::JmpIndirAPlusDptr => Ok(seq![0x73u8]),
            InstructionView::JnbBitRel(bit, to) => match to.resolve(symbols) {
                Err(e) => Err(e),
                Ok(target) => Ok(seq![0x30u8, bit, displacement(target, addr, 3)]),
            },
            InstructionView::JncRel(to) => match to.resolve(symbols) {
                Err(e) => Err(e),
                Ok(target) => Ok(seq![0x50u8, displacement(target, addr, 2)]),
            },
            InstructionView::JnzRel(to) => match to.resolve(symbols) {
                Err(e) => Err(e),
                Ok(target) => Ok(seq![0x70u8, displacement(target, addr, 2)]),
            },
            InstructionView::JzRel(to) => match to.resolve(symbols) {
                Err(e) => Err(e),
                Ok(target) => Ok(seq![0x60u8, displacement(target, addr, 2)]),
            },
            InstructionView::Lcall(to) => match to.resolve(symbols) {
                Err(e) => Err(e),
                Ok(target) => Ok(seq![0x12u8, high_byte(target), low_byte(target)]),
            },
            InstructionView::Ljmp(to) => match to.resolve(symbols) {
                Err(e) => Err(e),
                Ok(target) => Ok(seq![0x02u8, high_byte(target), low_byte(target)]),
            },
            InstructionView::MovAReg(r) => Ok(seq![0xE8u8 | r]),
            InstructionView::MovADirect(dir) => Ok(seq![0xE5u8, dir]),
            InstructionView::MovAIndirReg(r) => Ok(seq![0xE6u8 | r]),
            InstructionView::MovAData(data) => match data.resolve(symbols) {
                Err(e) => Err(e),
                Ok(data) => Ok(seq![0x74u8, data]),
            },
            InstructionView::MovRegA(r) => Ok(seq![0xF8u8 | r]),
            InstructionView::MovRegDir(r, dir) => Ok(seq![0xA8u8 | r, dir]),
            InstructionView::MovRegData(r, data) => match data.resolve(symbols) {
                Err(e) => Err(e),
                Ok(data) => Ok(seq![0x78u8 | r, data]),
            },
            InstructionView::MovDirectA(dir) => Ok(seq![0xF5u8, dir]),
            InstructionView::MovDirectReg(dir, r) => Ok(seq![0x88u8 | r, dir]),
            InstructionView::MovDirectDirect(dir, dir2) => Ok(seq![0x85u8, dir2, dir]),
            InstructionView::MovDirectIndirReg(dir, r) => Ok(seq![0x86u8 | r, dir]),
            InstructionView::MovDirectData(dir, data) => match data.resolve(symbols) {
                Err(e) => Err(e),
                Ok(data) => Ok(seq![0x75u8, dir, data]),
            },
            InstructionView::MovIndirRegA(r) => Ok(seq![0xF6u8 | r]),
            InstructionView::MovIndirRegDirect(r, dir) => Ok(seq![0xA6u8 | r, dir]),
            InstructionView::MovIndirRegData(r, data) => match data.resolve(symbols) {
                Err(e) => Err(e),
                Ok(data) => Ok(seq![0x76u8 | r, data]),
            },
            InstructionView::MovCBit(bit) => Ok(seq![0xA2u8, bit]),
            InstructionView::MovBitC(bit) => Ok(seq![0x92u8, bit]),
            InstructionView::MovDptrData(to) => match to.resolve(symbols) {
                Err(e) => Err(e),
                Ok(target) => Ok(seq![0x90u8, high_byte(target), low_byte(target)]),
            },
            InstructionView::MovcAIndirAPlusDptr => Ok(seq![0x93u8]),
            InstructionView::MovcAIndirAPlusPc => Ok(seq![0x83u8]),
            InstructionView::MovxAIndirReg(r) => Ok(seq![0xE2u8 | r]),
            InstructionView::MovxAIndirDptr => Ok(seq![0xE0u8]),
            InstructionView::MovxIndirRegA(r) => Ok(seq![0xF2u8 | r]),
            InstructionView::MovxIndirDptrA => Ok(seq![0xF0u8]),
            InstructionView::MulAB => Ok(seq![0xA4u8]),
            InstructionView::Nop => Ok(seq![0x00u8]),
            InstructionView::OrlAReg(r) => Ok(seq![0x48u8 | r]),
            InstructionView::OrlADirect(dir) => Ok(seq![0x45u8, dir]),
            InstructionView::OrlAIndirReg(r) => Ok(seq![0x46u8 | r]),
            InstructionView::OrlAData(data) => match data.resolve(symbols) {
                Err(e) => Err(e),
                Ok(data) => Ok(seq![0x44u8, data]),
            },
            InstructionView::OrlDirectA(dir) => Ok(seq![0x42u8, dir]),
            InstructionView::OrlDirectData(dir, data) => match data.resolve(symbols) {
                Err(e) => Err(e),
                Ok(data) => Ok(seq![0x43u8, dir, data]),
            },
            InstructionView::OrlCBit(bit) => Ok(seq![0x72u8, bit]),
            InstructionView::OrlCNegBit(bit) => Ok(seq![0xA0u8, bit]),
            InstructionView::PopDirect(dir) => Ok(seq![0xD0u8, dir]),
            InstructionView::PushDirect(dir) => Ok(seq![0xC0u8, dir]),
            InstructionView::Ret => Ok(seq![0x22u8]),
            InstructionView::Reti => Ok(seq![0x32u8]),
            InstructionView::RlA => Ok(seq![0x23u8]),
            InstructionView::RlcA => Ok(seq![0x33u8]),
            InstructionView::RrA => Ok(seq![0x03u8]),
            InstructionView::RrcA => Ok(seq![0x13u8]),
            InstructionView::SetbC => Ok(seq![0xD3u8]),
            InstructionView::SetbBit(bit) => Ok(seq![0xD2u8, bit]),
            InstructionView::Sjmp(to) => match to.resolve(symbols) {
                Err(e) => Err(e),
                Ok(target) => Ok(seq![0x80u8, displacement(target, addr, 2)]),
            },
            InstructionView::SubbAReg(r) => Ok(seq![0x98u8 | r]),
            InstructionView::SubbADirect(dir) => Ok(seq![0x95u8, dir]),
            InstructionView::SubbAIndirReg(r) => Ok(seq![0x96u8 | r]),
            InstructionView::SubbAData(data) => match data.resolve(symbols) {
                Err(e) => Err(e),
                Ok(data) => Ok(seq![0x94u8, data]),
            },
            InstructionView::SwapA => Ok(seq![0xC4u8]),
            InstructionView::XchAReg(r) => Ok(seq![0xC8u8 | r]),
            InstructionView::XchADirect(dir) => Ok(seq![0xC5u8, dir]),
            InstructionView::XchAIndirReg(r) => Ok(seq![0xC6u8 | r]),
            InstructionView::XchdAIndirReg(r) => Ok(seq![0xD6u8 | r]),
            InstructionView::XrlAReg(r) => Ok(seq![0x68u8 | r]),
            InstructionView::XrlADirect(dir) => Ok(seq![0x65u8, dir]),
            InstructionView::XrlAIndirReg(r) => Ok(seq![0x66u8 | r]),
            InstructionView::XrlAData(data) => match data.resolve(symbols) {
                Err(e) => Err(e),
                Ok(data) => Ok(seq![0x64u8, data]),
            },
            InstructionView::XrlDirectA(dir) => Ok(seq![0x62u8, dir]),
            InstructionView::XrlDirectData(dir, data) => match data.resolve(symbols) {
                Err(e) => Err(e),
                Ok(data) => Ok(seq![0x63u8, dir, data]),
            },
            InstructionView::Bytes(v) => Ok(v),
        }
    }
}

/// The number of operands that a mnemonic takes.
pub open spec fn arity(operator: Operator) -> nat {
    match operator {
        Operator::Nop | Operator::Ret | Operator::Reti => 0,
        Operator::Acall
        | Operator::Ajmp
        | Operator::Clr
        | Operator::Cpl
        | Operator::Da
        | Operator::Dec
        | Operator::Inc
        | Operator::Jc
        | Operator::Jmp
        | Operator::Jnc
        | Operator::Jnz
        | Operator::Jz
        | Operator::Lcall
        | Operator::Ljmp
        | Operator::Pop
        | Operator::Push
        | Operator::Rl
        | Operator::Rlc
        | Operator::Rr
        | Operator::Rrc
        | Operator::Setb
        | Operator::Sjmp
        | Operator::Swap => 1,
        Operator::Cjne => 3,
        _ => 2,
    }
}

/// The instruction that a mnemonic and its operands stand for: for each
/// mnemonic the accepted operand shapes, each with its addressing form. A
/// wrong number of operands is reported first, then the first operand whose
/// shape fits no form.
pub open spec fn lower(operator: Operator, ops: Seq<OperandView>) -> Result<
    InstructionView,
    InstructionErrorView,
> {
    if operator == Operator::Call {
        Err(InstructionErrorView::UnsupportedOperator(operator))
    } else if ops.len() != arity(operator) {
        Err(
            InstructionErrorView::InvalidNumOperands {
                operator,
                num: (ops.len() % 256) as u8,
                expected: arity(operator) as u8,
            },
        )
    } else {
        match operator {
            Operator::Acall => {
                if ops[0].page_target() is Some {
                    Ok(InstructionView::Acall(ops[0].page_target().unwrap()))
                } else {
                    invalid(operator, ops, 0)
                }
            },
            Operator::Add => {
                if !ops[0].is_acc() {
                    invalid(operator, ops, 0)
                } else if ops[0].is_acc() && ops[1].working() is Some {
                    Ok(InstructionView::AddAReg(ops[1].working().unwrap()))
                } else if ops[0].is_acc() && ops[1].direct() is Some {
                    Ok(InstructionView::AddADirect(ops[1].direct().unwrap()))
                } else if ops[0].is_acc() && ops[1].indirect() is Some {
                    Ok(InstructionView::AddAIndirReg(ops[1].indirect().unwrap()))
                } else if ops[0].is_acc() && ops[1].byte_data() is Some {
                    Ok(InstructionView::AddAData(ops[1].byte_data().unwrap()))
                } else {
                    invalid(operator, ops, 1)
                }
            },
            Operator::Addc => {
                if !ops[0].is_acc() {
                    invalid(operator, ops, 0)
                } else if ops[0].is_acc() && ops[1].working() is Some {
                    Ok(InstructionView::AddcAReg(ops[1].working().unwrap()))
                } else if ops[0].is_acc() && ops[1].direct() is Some {
                    Ok(InstructionView::AddcADirect(ops[1].direct().unwrap()))
                } else if ops[0].is_acc() && ops[1].indirect() is Some {
                    Ok(InstructionView::AddcAIndirReg(ops[1].indirect().unwrap()))
                } else if ops[0].is_acc() && ops[1].byte_data() is Some {
                    Ok(InstructionView::AddcAData(ops[1].byte_data().unwrap()))
                } else {
                    invalid(operator, ops, 1)
                }
            },
            Operator::Ajmp => {
                if ops[0].page_target() is Some {
                    Ok(InstructionView::Ajmp(ops[0].page_target().unwrap()))
                } else {
                    invalid(operator, ops, 0)
                }
            },
            Operator::Anl => {
                if !(ops[0].is_acc() || ops[0].is_carry() || ops[0].direct() is Some) {
                    invalid(operator, ops, 0)
                } else if ops[0].is_acc() && ops[1].working() is Some {
                    Ok(InstructionView::AnlAReg(ops[1].working().unwrap()))
                } else if ops[0].is_acc() && ops[1].direct() is Some {
                    Ok(InstructionView::AnlADirect(ops[1].direct().unwrap()))
                } else if ops[0].is_acc() && ops[1].indirect() is Some {
                    Ok(InstructionView::AnlAIndirReg(ops[1].indirect().unwrap()))
                } else if ops[0].is_acc() && ops[1].byte_data() is Some {
                    Ok(InstructionView::AnlAData(ops[1].byte_data().unwrap()))
                } else if ops[0].direct() is Some && ops[1].is_acc() {
                    Ok(InstructionView::AnlDirectA(ops[0].direct().unwrap()))
                } else if ops[0].direct() is Some && ops[1].byte_data() is Some {
                    Ok(
                        InstructionView::AnlDirectData(
                            ops[0].direct().unwrap(),
                            ops[1].byte_data().unwrap(),
                        ),
                    )
                } else if ops[0].is_carry() && ops[1].bit() is Some {
                    Ok(InstructionView::AnlCBit(ops[1].bit().unwrap()))
                } else {
                    invalid(operator, ops, 1)
                }
            },
            Operator::Call => Err(InstructionErrorView::UnsupportedOperator(operator)),
            Operator::Cjne => {
                if !(ops[0].is_acc() || ops[0].working() is Some || ops[0].is_indirect()) {
                    invalid(operator, ops, 0)
                } else if ops[2].label() is None {
                    invalid(operator, ops, 2)
                } else if ops[0].is_acc() && ops[1].direct() is Some {
                    Ok(
                        InstructionView::CjneADirRel(
                            ops[1].direct().unwrap(),
                            ops[2].label().unwrap(),
                        ),
                    )
                } else if ops[0].is_acc() && ops[1].byte_data() is Some {
                    Ok(
                        InstructionView::CjneADataRel(
                            ops[1].byte_data().unwrap(),
                            ops[2].label().unwrap(),
                        ),
                    )
                } else if ops[0].working() is Some && ops[1].byte_data() is Some {
                    Ok(
                        InstructionView::CjneRegDataRel(
                            ops[0].working().unwrap(),
                            ops[1].byte_data().unwrap(),
                            ops[2].label().unwrap(),
                        ),
                    )
                } else if ops[0].indirect() is Some && ops[1].byte_data() is Some {
                    Ok(
                        InstructionView::CjneIndirRegDataRel(
                            ops[0].indirect().unwrap(),
                            ops[1].byte_data().unwrap(),
                            ops[2].label().unwrap(),
                        ),
                    )
                } else {
                    invalid(operator, ops, 1)
                }
            },
            Operator::Clr => {
                if ops[0].is_acc() {
                    Ok(InstructionView::ClrA)
                } else if ops[0].is_carry() {
                    Ok(InstructionView::ClrC)
                } else if ops[0].bit() is Some {
                    Ok(InstructionView::ClrBit(ops[0].bit().unwrap()))
                } else {
                    invalid(operator, ops, 0)
                }
            },
            Operator::Cpl => {
                if ops[0].is_acc() {
                    Ok(InstructionView::CplA)
                } else if ops[0].is_carry() {
                    Ok(InstructionView::CplC)
                } else if ops[0].bit() is Some {
                    Ok(InstructionView::CplBit(ops[0].bit().unwrap()))
                } else {
                    invalid(operator, ops, 0)
                }
            },
            Operator::Da => {
                if ops[0].is_acc() {
                    Ok(InstructionView::DaA)
                } else {
                    invalid(operator, ops, 0)
                }
            },
            Operator::Dec => {
                if ops[0].is_acc() {
                    Ok(InstructionView::DecA)
                } else if ops[0].working() is Some {
                    Ok(InstructionView::DecReg(ops[0].working().unwrap()))
                } else if ops[0].direct() is Some {
                    Ok(InstructionView::DecDirect(ops[0].direct().unwrap()))
                } else if ops[0].indirect() is Some {
                    Ok(InstructionView::DecIndirReg(ops[0].indirect().unwrap()))
                } else {
                    invalid(operator, ops, 0)
                }
            },
            Operator::Div => {
                if !ops[0].is_acc() {
                    invalid(operator, ops, 0)
                } else if ops[0].is_acc() && ops[1].is_b() {
                    Ok(InstructionView::DivAB)
                } else {
                    invalid(operator, ops, 1)
                }
            },
            Operator::Djnz => {
                if ops[1].label() is None {
                    invalid(operator, ops, 1)
                } else if ops[0].working() is Some {
                    Ok(
                        InstructionView::DjnzRegRel(
                            ops[0].working().unwrap(),
                            ops[1].label().unwrap(),
                        ),
                    )
                } else if ops[0].direct() is Some {
                    Ok(
                        InstructionView::DjnzDirectRel(
                            ops[0].direct().unwrap(),
                            ops[1].label().unwrap(),
                        ),
                    )
                } else {
                    invalid(operator, ops, 0)
                }
            },
            Operator::Inc => {
                if ops[0].is_acc() {
                    Ok(InstructionView::IncA)
                } else if ops[0].working() is Some {
                    Ok(InstructionView::IncReg(ops[0].working().unwrap()))
                } else if ops[0].direct() is Some {
                    Ok(InstructionView::IncDirect(ops[0].direct().unwrap()))
                } else if ops[0].indirect() is Some {
                    Ok(InstructionView::IncIndirReg(ops[0].indirect().unwrap()))
                } else if ops[0].is_dptr() {
                    Ok(InstructionView::IncDptr)
                } else {
                    invalid(operator, ops, 0)
                }
            },
            Operator::Jb => {
                if ops[1].label() is None {
                    invalid(operator, ops, 1)
                } else if ops[0].bit() is Some {
                    Ok(InstructionView::JbBitRel(ops[0].bit().unwrap(), ops[1].label().unwrap()))
                } else {
                    invalid(operator, ops, 0)
                }
            },
            Operator::Jbc => {
                if ops[1].label() is None {
                    invalid(operator, ops, 1)
                } else if ops[0].bit() is Some {
                    Ok(InstructionView::JbcBitRel(ops[0].bit().unwrap(), ops[1].label().unwrap()))
                } else {
                    invalid(operator, ops, 0)
                }
            },
            Operator::Jc => {
                if ops[0].label() is Some {
                    Ok(InstructionView::JcRel(ops[0].label().unwrap()))
                } else {
                    invalid(operator, ops, 0)
                }
            },
            Operator::Jmp => {
                if ops[0].is_acc_plus_dptr() {
                    Ok(InstructionView::JmpIndirAPlusDptr)
                } else {
                    invalid(operator, ops, 0)
                }
            },
            Operator::Jnb => {
                if ops[1].label() is None {
                    invalid(operator, ops, 1)
                } else if ops[0].bit() is Some {
                    Ok(InstructionView::JnbBitRel(ops[0].bit().unwrap(), ops[1].label().unwrap()))
                } else {
                    invalid(operator, ops, 0)
                }
            },
            Operator::Jnc => {
                if ops[0].label() is Some {
                    Ok(InstructionView::JncRel(ops[0].label().unwrap()))
                } else {
                    invalid(operator, ops, 0)
                }
            },
            Operator::Jnz => {
                if ops[0].label() is Some {
                    Ok(InstructionView::JnzRel(ops[0].label().unwrap()))
                } else {
                    invalid(operator, ops, 0)
                }
            },
            Operator::Jz => {
                if ops[0].label() is Some {
                    Ok(InstructionView::JzRel(ops[0].label().unwrap()))
                } else {
                    invalid(operator, ops, 0)
                }
            },
            Operator::Lcall => {
                if ops[0].long_target() is Some {
                    Ok(InstructionView::Lcall(ops[0].long_target().unwrap()))
                } else {
                    invalid(operator, ops, 0)
                }
            },
            Operator::Ljmp => {
                if ops[0].long_target() is Some {
                    Ok(InstructionView::Ljmp(ops[0].long_target().unwrap()))
                } else {
                    invalid(operator, ops, 0)
                }
            },
            Operator::Mov => {
                if !(ops[0].is_acc()
                    || ops[0].is_carry()
                    || ops[0].is_dptr()
                    || ops[0].working() is Some
                    || ops[0].direct() is Some
                    || ops[0].bit() is Some
                    || ops[0].indirect() is Some) {
                    invalid(operator, ops, 0)
                } else if ops[0].is_acc() && ops[1].working() is Some {
                    Ok(InstructionView::MovAReg(ops[1].working().unwrap()))
                } else if ops[0].is_acc() && ops[1].direct_not_acc() is Some {
                    Ok(InstructionView::MovADirect(ops[1].direct_not_acc().unwrap()))
                } else if ops[0].is_acc() && ops[1].indirect() is Some {
                    Ok(InstructionView::MovAIndirReg(ops[1].indirect().unwrap()))
                } else if ops[0].is_acc() && ops[1].byte_data() is Some {
                    Ok(InstructionView::MovAData(ops[1].byte_data().unwrap()))
                } else if ops[0].working() is Some && ops[1].is_acc() {
                    Ok(InstructionView::MovRegA(ops[0].working().unwrap()))
                } else if ops[0].working() is Some && ops[1].direct() is Some {
                    Ok(
                        InstructionView::MovRegDir(
                            ops[0].working().unwrap(),
                            ops[1].direct().unwrap(),
                        ),
                    )
                } else if ops[0].working() is Some && ops[1].byte_data() is Some {
                    Ok(
                        InstructionView::MovRegData(
                            ops[0].working().unwrap(),
                            ops[1].byte_data().unwrap(),
                        ),
                    )
                } else if ops[0].direct_not_acc() is Some && ops[1].is_acc() {
                    Ok(InstructionView::MovDirectA(ops[0].direct_not_acc().unwrap()))
                } else if ops[0].direct() is Some && ops[1].working() is Some {
                    Ok(
                        InstructionView::MovDirectReg(
                            ops[0].direct().unwrap(),
                            ops[1].working().unwrap(),
                        ),
                    )
                } else if ops[0].direct() is Some && ops[1].direct() is Some {
                    Ok(
                        InstructionView::MovDirectDirect(
                            ops[0].direct().unwrap(),
                            ops[1].direct().unwrap(),
                        ),
                    )
                } else if ops[0].direct() is Some && ops[1].indirect() is Some {
                    Ok(
                        InstructionView::MovDirectIndirReg(
                            ops[0].direct().unwrap(),
                            ops[1].indirect().unwrap(),
                        ),
                    )
                } else if ops[0].direct() is Some && ops[1].byte_data() is Some {
                    Ok(
                        InstructionView::MovDirectData(
                            ops[0].direct().unwrap(),
                            ops[1].byte_data().unwrap(),
                        ),
                    )
                } else if ops[0].indirect() is Some && ops[1].is_acc() {
                    Ok(InstructionView::MovIndirRegA(ops[0].indirect().unwrap()))
                } else if ops[0].indirect() is Some && ops[1].direct() is Some {
                    Ok(
                        InstructionView::MovIndirRegDirect(
                            ops[0].indirect().unwrap(),
                            ops[1].direct().unwrap(),
                        ),
                    )
                } else if ops[0].indirect() is Some && ops[1].byte_data() is Some {
                    Ok(
                        InstructionView::MovIndirRegData(
                            ops[0].indirect().unwrap(),
                            ops[1].byte_data().unwrap(),
                        ),
                    )
                } else if ops[0].is_carry() && ops[1].bit() is Some {
                    Ok(InstructionView::MovCBit(ops[1].bit().unwrap()))
                } else if ops[0].bit() is Some && ops[1].is_carry() {
                    Ok(InstructionView::MovBitC(ops[0].bit().unwrap()))
                } else if ops[0].is_dptr() && ops[1].long_target() is Some {
                    Ok(InstructionView::MovDptrData(ops[1].long_target().unwrap()))
                } else {
                    invalid(operator, ops, 1)
                }
            },
            Operator::Movc => {
                if !ops[0].is_acc() {
                    invalid(operator, ops, 0)
                } else if ops[0].is_acc() && ops[1].is_acc_plus_dptr() {
                    Ok(InstructionView::MovcAIndirAPlusDptr)
                } else if ops[0].is_acc() && ops[1].is_acc_plus_pc() {
                    Ok(InstructionView::MovcAIndirAPlusPc)
                } else {
                    invalid(operator, ops, 1)
                }
            },
            Operator::Movx => {
                if !(ops[0].is_acc() || ops[0].is_indirect_dptr() || ops[0].indirect() is Some) {
                    invalid(operator, ops, 0)
                } else if ops[0].is_acc() && ops[1].indirect() is Some {
                    Ok(InstructionView::MovxAIndirReg(ops[1].indirect().unwrap()))
                } else if ops[0].is_acc() && ops[1].is_indirect_dptr() {
                    Ok(InstructionView::MovxAIndirDptr)
                } else if ops[0].indirect() is Some && ops[1].is_acc() {
                    Ok(InstructionView::MovxIndirRegA(ops[0].indirect().unwrap()))
                } else if ops[0].is_indirect_dptr() && ops[1].is_acc() {
                    Ok(InstructionView::MovxIndirDptrA)
                } else {
                    invalid(operator, ops, 1)
                }
            },
            Operator::Mul => {
                if !ops[0].is_acc() {
                    invalid(operator, ops, 0)
                } else if ops[0].is_acc() && ops[1].is_b() {
                    Ok(InstructionView::MulAB)
                } else {
                    invalid(operator, ops, 1)
                }
            },
            Operator::Nop => Ok(InstructionView::Nop),
            Operator::Orl => {
                if !(ops[0].is_acc() || ops[0].is_carry() || ops[0].direct() is Some) {
                    invalid(operator, ops, 0)
                } else if ops[0].is_acc() && ops[1].working() is Some {
                    Ok(InstructionView::OrlAReg(ops[1].working().unwrap()))
                } else if ops[0].is_acc() && ops[1].direct() is Some {
                    Ok(InstructionView::OrlADirect(ops[1].direct().unwrap()))
                } else if ops[0].is_acc() && ops[1].indirect() is Some {
                    Ok(InstructionView::OrlAIndirReg(ops[1].indirect().unwrap()))
                } else if ops[0].is_acc() && ops[1].byte_data() is Some {
                    Ok(InstructionView::OrlAData(ops[1].byte_data().unwrap()))
                } else if ops[0].direct() is Some && ops[1].is_acc() {
                    Ok(InstructionView::OrlDirectA(ops[0].direct().unwrap()))
                } else if ops[0].direct() is Some && ops[1].byte_data() is Some {
                    Ok(
                        InstructionView::OrlDirectData(
                            ops[0].direct().unwrap(),
                            ops[1].byte_data().unwrap(),
                        ),
                    )
                } else if ops[0].is_carry() && ops[1].bit() is Some {
                    Ok(InstructionView::OrlCBit(ops[1].bit().unwrap()))
                } else {
                    invalid(operator, ops, 1)
                }
            },
            Operator::Pop => {
                if ops[0].direct() is Some {
                    Ok(InstructionView::PopDirect(ops[0].direct().unwrap()))
                } else {
                    invalid(operator, ops, 0)
                }
            },
            Operator::Push => {
                if ops[0].direct() is Some {
                    Ok(InstructionView::PushDirect(ops[0].direct().unwrap()))
                } else {
                    invalid(operator, ops, 0)
                }
            },
            Operator::Ret => Ok(InstructionView::Ret),
            Operator::Reti => Ok(InstructionView::Reti),
            Operator::Rl => {
                if ops[0].is_acc() {
                    Ok(InstructionView::RlA)
                } else {
                    invalid(operator, ops, 0)
                }
            },
            Operator::Rlc => {
                if ops[0].is_acc() {
                    Ok(InstructionView::RlcA)
                } else {
                    invalid(operator, ops, 0)
                }
            },
            Operator::Rr => {
                if ops[0].is_acc() {
                    Ok(InstructionView::RrA)
                } else {
                    invalid(operator, ops, 0)
                }
            },
            Operator::Rrc => {
                if ops[0].is_acc() {
                    Ok(InstructionView::RrcA)
                } else {
                    invalid(operator, ops, 0)
                }
            },
            Operator::Setb => {
                if ops[0].is_carry() {
                    Ok(InstructionView::SetbC)
                } else if ops[0].bit() is Some {
                    Ok(InstructionView::SetbBit(ops[0].bit().unwrap()))
                } else {
                    invalid(operator, ops, 0)
                }
            },
            Operator::Sjmp => {
                if ops[0].label() is Some {
                    Ok(InstructionView::Sjmp(ops[0].label().unwrap()))
                } else {
                    invalid(operator, ops, 0)
                }
            },
            Operator::Subb => {
                if !ops[0].is_acc() {
                    invalid(operator, ops, 0)
                } else if ops[0].is_acc() && ops[1].working() is Some {
                    Ok(InstructionView::SubbAReg(ops[1].working().unwrap()))
                } else if ops[0].is_acc() && ops[1].direct() is Some {
                    Ok(InstructionView::SubbADirect(ops[1].direct().unwrap()))
                } else if ops[0].is_acc() && ops[1].indirect() is Some {
                    Ok(InstructionView::SubbAIndirReg(ops[1].indirect().unwrap()))
                } else if ops[0].is_acc() && ops[1].byte_data() is Some {
                    Ok(InstructionView::SubbAData(ops[1].byte_data().unwrap()))
                } else {
                    invalid(operator, ops, 1)
                }
            },
            Operator::Swap => {
                if ops[0].is_acc() {
                    Ok(InstructionView::SwapA)
                } else {
                    invalid(operator, ops, 0)
                }
            },
            Operator::Xch => {
                if !ops[0].is_acc() {
                    invalid(operator, ops, 0)
                } else if ops[0].is_acc() && ops[1].working() is Some {
                    Ok(InstructionView::XchAReg(ops[1].working().unwrap()))
                } else if ops[0].is_acc() && ops[1].direct() is Some {
                    Ok(InstructionView::XchADirect(ops[1].direct().unwrap()))
                } else if ops[0].is_acc() && ops[1].indirect() is Some {
                    Ok(InstructionView::XchAIndirReg(ops[1].indirect().unwrap()))
                } else {
                    invalid(operator, ops, 1)
                }
            },
            Operator::Xchd => {
                if !ops[0].is_acc() {
                    invalid(operator, ops, 0)
                } else if ops[0].is_acc() && ops[1].indirect() is Some {
                    Ok(InstructionView::XchdAIndirReg(ops[1].indirect().unwrap()))
                } else {
                    invalid(operator, ops, 1)
                }
            },
            Operator::Xrl => {
                if !(ops[0].is_acc() || ops[0].direct() is Some) {
                    invalid(operator, ops, 0)
                } else if ops[0].is_acc() && ops[1].working() is Some {
                    Ok(InstructionView::XrlAReg(ops[1].working().unwrap()))
                } else if ops[0].is_acc() && ops[1].direct() is Some {
                    Ok(InstructionView::XrlADirect(ops[1].direct().unwrap()))
                } else if ops[0].is_acc() && ops[1].indirect() is Some {
                    Ok(InstructionView::XrlAIndirReg(ops[1].indirect().unwrap()))
                } else if ops[0].is_acc() && ops[1].byte_data() is Some {
                    Ok(InstructionView::XrlAData(ops[1].byte_data().unwrap()))
                } else if ops[0].direct() is Some && ops[1].is_acc() {
                    Ok(InstructionView::XrlDirectA(ops[0].direct().unwrap()))
                } else if ops[0].direct() is Some && ops[1].byte_data() is Some {
                    Ok(
                        InstructionView::XrlDirectData(
                            ops[0].direct().unwrap(),
                            ops[1].byte_data().unwrap(),
                        ),
                    )
                } else {
                    invalid(operator, ops, 1)
                }
            },
        }
    }
}

impl Instruction {
    /// The number of bytes of the instruction, as a 16-bit count: a run of
    /// 65536 data bytes or more counts modulo 65536.
    pub fn bytes(&self) -> (n: u16)
        ensures
            n == self@.size() % 0x10000,
            !(self@ is Bytes) ==> 1 <= n <= 3 && n == self@.size(),
    {
        match self {
            Instruction::Acall(_) => 2,
            Instruction::AddAReg(_) => 1,
            Instruction::AddADirect(_) => 2,
            Instruction::AddAIndirReg(_) => 1,
            Instruction::AddAData(_) => 2,
            Instruction::AddcAReg(_) => 1,
            Instruction::AddcADirect(_) => 2,
            Instruction::AddcAIndirReg(_) => 1,
            Instruction::AddcAData(_) => 2,
            Instruction::Ajmp(_) => 2,
            Instruction::AnlAReg(_) => 1,
            Instruction::AnlADirect(_) => 2,
            Instruction::AnlAIndirReg(_) => 1,
            Instruction::AnlAData(_) => 2,
            Instruction::AnlDirectA(_) => 2,
            Instruction::AnlDirectData(_, _) => 3,
            Instruction::AnlCBit(_) => 2,
            Instruction::AnlCNegBit(_) => 2,
            Instruction::CjneADirRel(_, _) => 3,
            Instruction::CjneADataRel(_, _) => 3,
            Instruction::CjneRegDataRel(_, _, _) => 3,
            Instruction::CjneIndirRegDataRel(_, _, _) => 3,
            Instruction::ClrA => 1,
            Instruction::ClrC => 1,
            Instruction::ClrBit(_) => 2,
            Instruction::CplA => 1,
            Instruction::CplC => 1,
            Instruction::CplBit(_) => 2,
            Instruction::DaA => 1,
            Instruction::DecA => 1,
            Instruction::DecReg(_) => 1,
            Instruction::DecDirect(_) => 2,
            Instruction::DecIndirReg(_) => 1,
            Instruction::DivAB => 1,
            Instruction::DjnzRegRel(_, _) => 2,
            Instruction::DjnzDirectRel(_, _) => 3,
            Instruction::IncA => 1,
            Instruction::IncReg(_) => 1,
            Instruction::IncDirect(_) => 2,
            Instruction::IncIndirReg(_) => 1,
            Instruction::IncDptr => 1,
            Instruction::JbBitRel(_, _) => 3,
            Instruction::JbcBitRel(_, _) => 3,
            Instruction::JcRel(_) => 2,
            Instruction::JmpIndirAPlusDptr => 1,
            Instruction::JnbBitRel(_, _) => 3,
            Instruction::JncRel(_) => 2,
            Instruction::JnzRel(_) => 2,
            Instruction::JzRel(_) => 2,
            Instruction::Lcall(_) => 3,
            Instruction::Ljmp(_) => 3,
            Instruction::MovAReg(_) => 1,
            Instruction::MovADirect(_) => 2,
            Instruction::MovAIndirReg(_) => 1,
            Instruction::MovAData(_) => 2,
            Instruction::MovRegA(_) => 1,
            Instruction::MovRegDir(_, _) => 2,
            Instruction::MovRegData(_, _) => 2,
            Instruction::MovDirectA(_) => 2,
            Instruction::MovDirectReg(_, _) => 2,
            Instruction::MovDirectDirect(_, _) => 3,
            Instruction::MovDirectIndirReg(_, _) => 2,
            Instruction::MovDirectData(_, _) => 3,
            Instruction::MovIndirRegA(_) => 1,
            Instruction::MovIndirRegDirect(_, _) => 2,
            Instruction::MovIndirRegData(_, _) => 2,
            Instruction::MovCBit(_) => 2,
            Instruction::MovBitC(_) => 2,
            Instruction::MovDptrData(_) => 3,
            Instruction::MovcAIndirAPlusDptr => 1,
            Instruction::MovcAIndirAPlusPc => 1,
            Instruction::MovxAIndirReg(_) => 1,
            Instruction::MovxAIndirDptr => 1,
            Instruction::MovxIndirRegA(_) => 1,
            Instruction::MovxIndirDptrA => 1,
            Instruction::MulAB => 1,
            Instruction::Nop => 1,
            Instruction::OrlAReg(_) => 1,
            Instruction::OrlADirect(_) => 2,
            Instruction::OrlAIndirReg(_) => 1,
            Instruction::OrlAData(_) => 2,
            Instruction::OrlDirectA(_) => 2,
            Instruction::OrlDirectData(_, _) => 3,
            Instruction::OrlCBit(_) => 2,
            Instruction::OrlCNegBit(_) => 2,
            Instruction::PopDirect(_) => 2,
            Instruction::PushDirect(_) => 2,
            Instruction::Ret => 1,
            Instruction::Reti => 1,
            Instruction::RlA => 1,
            Instruction::RlcA => 1,
            Instruction::RrA => 1,
            Instruction::RrcA => 1,
            Instruction::SetbC => 1,
            Instruction::SetbBit(_) => 2,
            Instruction::Sjmp(_) => 2,
            Instruction::SubbAReg(_) => 1,
            Instruction::SubbADirect(_) => 2,
            Instruction::SubbAIndirReg(_) => 1,
            Instruction::SubbAData(_) => 2,
            Instruction::SwapA => 1,
            Instruction::XchAReg(_) => 1,
            Instruction::XchADirect(_) => 2,
            Instruction::XchAIndirReg(_) => 1,
            Instruction::XchdAIndirReg(_) => 1,
            Instruction::XrlAReg(_) => 1,
            Instruction::XrlADirect(_) => 2,
            Instruction::XrlAIndirReg(_) => 1,
            Instruction::XrlAData(_) => 2,
            Instruction::XrlDirectA(_) => 2,
            Instruction::XrlDirectData(_, _) => 3,
            Instruction::Bytes(v) => (v.len() % 0x10000) as u16,
        }
    }

    fn expect_operands(operator: Operator, operands: &Vec<Operand>, num: u8) -> (r: Result<
        (),
        InstructionError,
    >)
        ensures
            operands.len() == num ==> r is Ok,
            operands.len() != num ==> r is Err && r.unwrap_err()@
                == (InstructionErrorView::InvalidNumOperands {
                operator,
                num: (operands.len() % 256) as u8,
                expected: num,
            }),
    {
        if operands.len() == num as usize {
            Ok(())
        } else {
            Err(
                InstructionError::InvalidNumOperands {
                    operator: operator,
                    num: (operands.len() % 256) as u8,
                    expected: num,
                },
            )
        }
    }

    fn invalid_operand(operator: Operator, operand: Operand, pos: u8) -> (r: Result<
        Instruction,
        InstructionError,
    >)
        ensures
            r is Err,
            r.unwrap_err()@ == (InstructionErrorView::InvalidOperand {
                operator,
                operand: operand@,
                pos,
            }),
    {
        Err(InstructionError::InvalidOperand { operator: operator, operand: operand, pos: pos })
    }

    fn from_acall(operands: &Vec<Operand>) -> (r: Result<Instruction, InstructionError>)
        ensures
            result_view(r) == lower(Operator::Acall, operand_views(operands@)),
    {
        let operator = Operator::Acall;
        Self::expect_operands(operator, operands, 1)?;
        match &operands[0] {
            Operand::Immediate(addr) if *addr >= 0 && *addr <= 2048 => {
                Ok(Instruction::Acall(Address::Number(*addr as u16)))
            },
            Operand::ImmediateId(id) => Ok(Instruction::Acall(Address::Label(id.clone()))),
            _ => Self::invalid_operand(operator, operands[0].clone(), 0),
        }
    }

    fn from_add(operands: &Vec<Operand>) -> (r: Result<Instruction, InstructionError>)
        ensures
            result_view(r) == lower(Operator::Add, operand_views(operands@)),
    {
        let operator = Operator::Add;
        Self::expect_operands(operator, operands, 2)?;
        match &operands[0] {
            Operand::Register(Register::A) => (),
            _ => {
                return Self::invalid_operand(operator, operands[0].clone(), 0);
            },
        }
        match (&operands[0], &operands[1]) {
            (Operand::Register(Register::A), Operand::Register(Register::R(r))) => {
                Ok(Instruction::AddAReg(*r))
            },
            (Operand::Register(Register::A), Operand::Direct(addr)) => {
                Ok(Instruction::AddADirect(*addr))
            },
            (Operand::Register(Register::A), Operand::IndirectReg(Register::R(r))) if *r < 2 => {
                Ok(Instruction::AddAIndirReg(*r))
            },
            (
                Operand::Register(Register::A),
                Operand::Immediate(imm),
            ) if *imm >= -128 && *imm <= 255 => {
                Ok(Instruction::AddAData(Data::Number(byte_of(*imm))))
            },
            (Operand::Register(Register::A), Operand::ImmediateId(id)) => {
                Ok(Instruction::AddAData(Data::Identifier(id.clone())))
            },
            _ => Self::invalid_operand(operator, operands[1].clone(), 1),
        }
    }

    fn from_addc(operands: &Vec<Operand>) -> (r: Result<Instruction, InstructionError>)
        ensures
            result_view(r) == lower(Operator::Addc, operand_views(operands@)),
    {
        let operator = Operator::Addc;
        Self::expect_operands(operator, operands, 2)?;
        match &operands[0] {
            Operand::Register(Register::A) => (),
            _ => {
                return Self::invalid_operand(operator, operands[0].clone(), 0);
            },
        }
        match (&operands[0], &operands[1]) {
            (Operand::Register(Register::A), Operand::Register(Register::R(r))) => {
                Ok(Instruction::AddcAReg(*r))
            },
            (Operand::Register(Register::A), Operand::Direct(addr)) => {
                Ok(Instruction::AddcADirect(*addr))
            },
            (Operand::Register(Register::A), Operand::IndirectReg(Register::R(r))) if *r < 2 => {
                Ok(Instruction::AddcAIndirReg(*r))
            },
            (
                Operand::Register(Register::A),
                Operand::Immediate(imm),
            ) if *imm >= -128 && *imm <= 255 => {
                Ok(Instruction::AddcAData(Data::Number(byte_of(*imm))))
            },
            (Operand::Register(Register::A), Operand::ImmediateId(id)) => {
                Ok(Instruction::AddcAData(Data::Identifier(id.clone())))
            },
            _ => Self::invalid_operand(operator, operands[1].clone(), 1),
        }
    }

    fn from_ajmp(operands: &Vec<Operand>) -> (r: Result<Instruction, InstructionError>)
        ensures
            result_view(r) == lower(Operator::Ajmp, operand_views(operands@)),
    {
        let operator = Operator::Ajmp;
        Self::expect_operands(operator, operands, 1)?;
        match &operands[0] {
            Operand::Immediate(addr) if *addr >= 0 && *addr <= 2048 => {
                Ok(Instruction::Ajmp(Address::Number(*addr as u16)))
            },
            Operand::ImmediateId(id) => Ok(Instruction::Ajmp(Address::Label(id.clone()))),
            _ => Self::invalid_operand(operator, operands[0].clone(), 0),
        }
    }

    fn from_anl(operands: &Vec<Operand>) -> (r: Result<Instruction, InstructionError>)
        ensures
            result_view(r) == lower(Operator::Anl, operand_views(operands@)),
    {
        let operator = Operator::Anl;
        Self::expect_operands(operator, operands, 2)?;
        match &operands[0] {
            Operand::Register(Register::A) => (),
            Operand::Register(Register::C) => (),
            Operand::Direct(_) => (),
            _ => {
                return Self::invalid_operand(operator, operands[0].clone(), 0);
            },
        }
        match (&operands[0], &operands[1]) {
            (Operand::Register(Register::A), Operand::Register(Register::R(r))) => {
                Ok(Instruction::AnlAReg(*r))
            },
            (Operand::Register(Register::A), Operand::Direct(addr)) => {
                Ok(Instruction::AnlADirect(*addr))
            },
            (Operand::Register(Register::A), Operand::IndirectReg(Register::R(r))) if *r < 2 => {
                Ok(Instruction::AnlAIndirReg(*r))
            },
            (
                Operand::Register(Register::A),
                Operand::Immediate(imm),
            ) if *imm >= -128 && *imm <= 255 => {
                Ok(Instruction::AnlAData(Data::Number(byte_of(*imm))))
            },
            (Operand::Register(Register::A), Operand::ImmediateId(id)) => {
                Ok(Instruction::AnlAData(Data::Identifier(id.clone())))
            },
            (Operand::Direct(addr), Operand::Register(Register::A)) => {
                Ok(Instruction::AnlDirectA(*addr))
            },
            (Operand::Direct(addr), Operand::Immediate(imm)) if *imm >= -128 && *imm <= 255 => {
                Ok(Instruction::AnlDirectData(*addr, Data::Number(byte_of(*imm))))
            },
            (Operand::Direct(addr), Operand::ImmediateId(id)) => {
                Ok(Instruction::AnlDirectData(*addr, Data::Identifier(id.clone())))
            },
            (Operand::Register(Register::C), Operand::DirectBit(bit)) => {
                Ok(Instruction::AnlCBit(*bit))
            },
            _ => Self::invalid_operand(operator, operands[1].clone(), 1),
        }
    }

    fn from_cjne(operands: &Vec<Operand>) -> (r: Result<Instruction, InstructionError>)
        ensures
            result_view(r) == lower(Operator::Cjne, operand_views(operands@)),
    {
        let operator = Operator::Cjne;
        Self::expect_operands(operator, operands, 3)?;
        match &operands[0] {
            Operand::Register(Register::A) => (),
            Operand::Register(Register::R(r)) => (),
            Operand::IndirectReg(_) => (),
            _ => {
                return Self::invalid_operand(operator, operands[0].clone(), 0);
            },
        }
        let rel = match &operands[2] {
            Operand::ImmediateId(addr) => Address::Label(addr.clone()),
            _ => {
                return Self::invalid_operand(operator, operands[2].clone(), 2);
            },
        };
        match (&operands[0], &operands[1]) {
            (Operand::Register(Register::A), Operand::Direct(addr)) => {
                Ok(Instruction::CjneADirRel(*addr, rel))
            },
            (
                Operand::Register(Register::A),
                Operand::Immediate(imm),
            ) if *imm >= -128 && *imm <= 255 => {
                Ok(Instruction::CjneADataRel(Data::Number(byte_of(*imm)), rel))
            },
            (Operand::Register(Register::A), Operand::ImmediateId(id)) => {
                Ok(Instruction::CjneADataRel(Data::Identifier(id.clone()), rel))
            },
            (
                Operand::Register(Register::R(r)),
                Operand::Immediate(imm),
            ) if *imm >= -128 && *imm <= 255 => {
                Ok(Instruction::CjneRegDataRel(*r, Data::Number(byte_of(*imm)), rel))
            },
            (Operand::Register(Register::R(r)), Operand::ImmediateId(id)) => {
                Ok(Instruction::CjneRegDataRel(*r, Data::Identifier(id.clone()), rel))
            },
            (
                Operand::IndirectReg(Register::R(r)),
                Operand::Immediate(imm),
            ) if *r < 2 && *imm >= -128 && *imm <= 255 => {
                Ok(Instruction::CjneIndirRegDataRel(*r, Data::Number(byte_of(*imm)), rel))
            },
            (Operand::IndirectReg(Register::R(r)), Operand::ImmediateId(id)) if *r < 2 => {
                Ok(Instruction::CjneIndirRegDataRel(*r, Data::Identifier(id.clone()), rel))
            },
            _ => Self::invalid_operand(operator, operands[1].clone(), 1),
        }
    }

    fn from_clr(operands: &Vec<Operand>) -> (r: Result<Instruction, InstructionError>)
        ensures
            result_view(r) == lower(Operator::Clr, operand_views(operands@)),
    {
        let operator = Operator::Clr;
        Self::expect_operands(operator, operands, 1)?;
        match &operands[0] {
            Operand::Register(Register::A) => Ok(Instruction::ClrA),
            Operand::Register(Register::C) => Ok(Instruction::ClrC),
            Operand::DirectBit(bit) => Ok(Instruction::ClrBit(*bit)),
            _ => Self::invalid_operand(operator, operands[0].clone(), 0),
        }
    }

    fn from_cpl(operands: &Vec<Operand>) -> (r: Result<Instruction, InstructionError>)
        ensures
            result_view(r) == lower(Operator::Cpl, operand_views(operands@)),
    {
        let operator = Operator::Cpl;
        Self::expect_operands(operator, operands, 1)?;
        match &operands[0] {
            Operand::Register(Register::A) => Ok(Instruction::CplA),
            Operand::Register(Register::C) => Ok(Instruction::CplC),
            Operand::DirectBit(bit) => Ok(Instruction::CplBit(*bit)),
            _ => Self::invalid_operand(operator, operands[0].clone(), 0),
        }
    }

    fn from_da(operands: &Vec<Operand>) -> (r: Result<Instruction, InstructionError>)
        ensures
            result_view(r) == lower(Operator::Da, operand_views(operands@)),
    {
        let operator = Operator::Da;
        Self::expect_operands(operator, operands, 1)?;
        match &operands[0] {
            Operand::Register(Register::A) => Ok(Instruction::DaA),
            _ => Self::invalid_operand(operator, operands[0].clone(), 0),
        }
    }

    fn from_dec(operands: &Vec<Operand>) -> (r: Result<Instruction, InstructionError>)
        ensures
            result_view(r) == lower(Operator::Dec, operand_views(operands@)),
    {
        let operator = Operator::Dec;
        Self::expect_operands(operator, operands, 1)?;
        match &operands[0] {
            Operand::Register(Register::A) => Ok(Instruction::DecA),
            Operand::Register(Register::R(r)) => Ok(Instruction::DecReg(*r)),
            Operand::Direct(addr) => Ok(Instruction::DecDirect(*addr)),
            Operand::IndirectReg(Register::R(r)) if *r < 2 => Ok(Instruction::DecIndirReg(*r)),
            _ => Self::invalid_operand(operator, operands[0].clone(), 0),
        }
    }

    fn from_div(operands: &Vec<Operand>) -> (r: Result<Instruction, InstructionError>)
        ensures
            result_view(r) == lower(Operator::Div, operand_views(operands@)),
    {
        let operator = Operator::Div;
        Self::expect_operands(operator, operands, 2)?;
        match &operands[0] {
            Operand::Register(Register::A) => (),
            _ => {
                return Self::invalid_operand(operator, operands[0].clone(), 0);
            },
        }
        match (&operands[0], &operands[1]) {
            (Operand::Register(Register::A), Operand::Direct(0xF0)) => Ok(Instruction::DivAB),
            _ => Self::invalid_operand(operator, operands[1].clone(), 1),
        }
    }

    fn from_djnz(operands: &Vec<Operand>) -> (r: Result<Instruction, InstructionError>)
        ensures
            result_view(r) == lower(Operator::Djnz, operand_views(operands@)),
    {
        let operator = Operator::Djnz;
        Self::expect_operands(operator, operands, 2)?;
        let rel = match &operands[1] {
            Operand::ImmediateId(addr) => Address::Label(addr.clone()),
            _ => {
                return Self::invalid_operand(operator, operands[1].clone(), 1);
            },
        };
        match &operands[0] {
            Operand::Register(Register::R(r)) => Ok(Instruction::DjnzRegRel(*r, rel)),
            Operand::Direct(addr) => Ok(Instruction::DjnzDirectRel(*addr, rel)),
            _ => Self::invalid_operand(operator, operands[0].clone(), 0),
        }
    }

    fn from_inc(operands: &Vec<Operand>) -> (r: Result<Instruction, InstructionError>)
        ensures
            result_view(r) == lower(Operator::Inc, operand_views(operands@)),
    {
        let operator = Operator::Inc;
        Self::expect_operands(operator, operands, 1)?;
        match &operands[0] {
            Operand::Register(Register::A) => Ok(Instruction::IncA),
            Operand::Register(Register::R(r)) => Ok(Instruction::IncReg(*r)),
            Operand::Direct(addr) => Ok(Instruction::IncDirect(*addr)),
            Operand::IndirectReg(Register::R(r)) if *r < 2 => Ok(Instruction::IncIndirReg(*r)),
            Operand::Register(Register::DPTR) => Ok(Instruction::IncDptr),
            _ => Self::invalid_operand(operator, operands[0].clone(), 0),
        }
    }

    fn from_jb(operands: &Vec<Operand>) -> (r: Result<Instruction, InstructionError>)
        ensures
            result_view(r) == lower(Operator::Jb, operand_views(operands@)),
    {
        let operator = Operator::Jb;
        Self::expect_operands(operator, operands, 2)?;
        let rel = match &operands[1] {
            Operand::ImmediateId(addr) => Address::Label(addr.clone()),
            _ => {
                return Self::invalid_operand(operator, operands[1].clone(), 1);
            },
        };
        match &operands[0] {
            Operand::DirectBit(bit) => Ok(Instruction::JbBitRel(*bit, rel)),
            _ => Self::invalid_operand(operator, operands[0].clone(), 0),
        }
    }

    fn from_jbc(operands: &Vec<Operand>) -> (r: Result<Instruction, InstructionError>)
        ensures
            result_view(r) == lower(Operator::Jbc, operand_views(operands@)),
    {
        let operator = Operator::Jbc;
        Self::expect_operands(operator, operands, 2)?;
        let rel = match &operands[1] {
            Operand::ImmediateId(addr) => Address::Label(addr.clone()),
            _ => {
                return Self::invalid_operand(operator, operands[1].clone(), 1);
            },
        };
        match &operands[0] {
            Operand::DirectBit(bit) => Ok(Instruction::JbcBitRel(*bit, rel)),
            _ => Self::invalid_operand(operator, operands[0].clone(), 0),
        }
    }

    fn from_jc(operands: &Vec<Operand>) -> (r: Result<Instruction, InstructionError>)
        ensures
            result_view(r) == lower(Operator::Jc, operand_views(operands@)),
    {
        let operator = Operator::Jc;
        Self::expect_operands(operator, operands, 1)?;
        match &operands[0] {
            Operand::ImmediateId(addr) => Ok(Instruction::JcRel(Address::Label(addr.clone()))),
            _ => Self::invalid_operand(operator, operands[0].clone(), 0),
        }
    }

    fn from_jmp(operands: &Vec<Operand>) -> (r: Result<Instruction, InstructionError>)
        ensures
            result_view(r) == lower(Operator::Jmp, operand_views(operands@)),
    {
        let operator = Operator::Jmp;
        Self::expect_operands(operator, operands, 1)?;
        match &operands[0] {
            Operand::IndirectSum(Register::A, Register::DPTR) => Ok(Instruction::JmpIndirAPlusDptr),
            _ => Self::invalid_operand(operator, operands[0].clone(), 0),
        }
    }

    fn from_jnb(operands: &Vec<Operand>) -> (r: Result<Instruction, InstructionError>)
        ensures
            result_view(r) == lower(Operator::Jnb, operand_views(operands@)),
    {
        let operator = Operator::Jnb;
        Self::expect_operands(operator, operands, 2)?;
        let rel = match &operands[1] {
            Operand::ImmediateId(addr) => Address::Label(addr.clone()),
            _ => {
                return Self::invalid_operand(operator, operands[1].clone(), 1);
            },
        };
        match &operands[0] {
            Operand::DirectBit(bit) => Ok(Instruction::JnbBitRel(*bit, rel)),
            _ => Self::invalid_operand(operator, operands[0].clone(), 0),
        }
    }

    fn from_jnc(operands: &Vec<Operand>) -> (r: Result<Instruction, InstructionError>)
        ensures
            result_view(r) == lower(Operator::Jnc, operand_views(operands@)),
    {
        let operator = Operator::Jnc;
        Self::expect_operands(operator, operands, 1)?;
        match &operands[0] {
            Operand::ImmediateId(addr) => Ok(Instruction::JncRel(Address::Label(addr.clone()))),
            _ => Self::invalid_operand(operator, operands[0].clone(), 0),
        }
    }

    fn from_jnz(operands: &Vec<Operand>) -> (r: Result<Instruction, InstructionError>)
        ensures
            result_view(r) == lower(Operator::Jnz, operand_views(operands@)),
    {
        let operator = Operator::Jnz;
        Self::expect_operands(operator, operands, 1)?;
        match &operands[0] {
            Operand::ImmediateId(addr) => Ok(Instruction::JnzRel(Address::Label(addr.clone()))),
            _ => Self::invalid_operand(operator, operands[0].clone(), 0),
        }
    }

    fn from_jz(operands: &Vec<Operand>) -> (r: Result<Instruction, InstructionError>)
        ensures
            result_view(r) == lower(Operator::Jz, operand_views(operands@)),
    {
        let operator = Operator::Jz;
        Self::expect_operands(operator, operands, 1)?;
        match &operands[0] {
            Operand::ImmediateId(addr) => Ok(Instruction::JzRel(Address::Label(addr.clone()))),
            _ => Self::invalid_operand(operator, operands[0].clone(), 0),
        }
    }

    fn from_lcall(operands: &Vec<Operand>) -> (r: Result<Instruction, InstructionError>)
        ensures
            result_view(r) == lower(Operator::Lcall, operand_views(operands@)),
    {
        let operator = Operator::Lcall;
        Self::expect_operands(operator, operands, 1)?;
        match &operands[0] {
            Operand::Immediate(addr) if *addr >= 0 && *addr < 65536 => {
                Ok(Instruction::Lcall(Address::Number(*addr as u16)))
            },
            Operand::ImmediateId(id) => Ok(Instruction::Lcall(Address::Label(id.clone()))),
            _ => Self::invalid_operand(operator, operands[0].clone(), 0),
        }
    }

    fn from_ljmp(operands: &Vec<Operand>) -> (r: Result<Instruction, InstructionError>)
        ensures
            result_view(r) == lower(Operator::Ljmp, operand_views(operands@)),
    {
        let operator = Operator::Ljmp;
        Self::expect_operands(operator, operands, 1)?;
        match &operands[0] {
            Operand::Immediate(addr) if *addr >= 0 && *addr < 65536 => {
                Ok(Instruction::Ljmp(Address::Number(*addr as u16)))
            },
            Operand::ImmediateId(id) => Ok(Instruction::Ljmp(Address::Label(id.clone()))),
            _ => Self::invalid_operand(operator, operands[0].clone(), 0),
        }
    }

    fn from_mov(operands: &Vec<Operand>) -> (r: Result<Instruction, InstructionError>)
        ensures
            result_view(r) == lower(Operator::Mov, operand_views(operands@)),
    {
        let operator = Operator::Mov;
        Self::expect_operands(operator, operands, 2)?;
        match &operands[0] {
            Operand::Register(Register::A) => (),
            Operand::Register(Register::C) => (),
            Operand::Register(Register::DPTR) => (),
            Operand::Register(Register::R(r)) => (),
            Operand::Direct(_) => (),
            Operand::DirectBit(_) => (),
            Operand::IndirectReg(Register::R(r)) if *r < 2 => (),
            _ => {
                return Self::invalid_operand(operator, operands[0].clone(), 0);
            },
        }
        match (&operands[0], &operands[1]) {
            (Operand::Register(Register::A), Operand::Register(Register::R(r))) => {
                Ok(Instruction::MovAReg(*r))
            },
            (Operand::Register(Register::A), Operand::Direct(addr)) if *addr != 0xE0 => {
                Ok(Instruction::MovADirect(*addr))
            },
            (Operand::Register(Register::A), Operand::IndirectReg(Register::R(r))) if *r < 2 => {
                Ok(Instruction::MovAIndirReg(*r))
            },
            (
                Operand::Register(Register::A),
                Operand::Immediate(imm),
            ) if *imm >= -128 && *imm <= 255 => {
                Ok(Instruction::MovAData(Data::Number(byte_of(*imm))))
            },
            (Operand::Register(Register::A), Operand::ImmediateId(id)) => {
                Ok(Instruction::MovAData(Data::Identifier(id.clone())))
            },
            (Operand::Register(Register::R(r)), Operand::Register(Register::A)) => {
                Ok(Instruction::MovRegA(*r))
            },
            (Operand::Register(Register::R(r)), Operand::Direct(addr)) => {
                Ok(Instruction::MovRegDir(*r, *addr))
            },
            (
                Operand::Register(Register::R(r)),
                Operand::Immediate(imm),
            ) if *imm >= -128 && *imm <= 255 => {
                Ok(Instruction::MovRegData(*r, Data::Number(byte_of(*imm))))
            },
            (Operand::Register(Register::R(r)), Operand::ImmediateId(id)) => {
                Ok(Instruction::MovRegData(*r, Data::Identifier(id.clone())))
            },
            (Operand::Direct(addr), Operand::Register(Register::A)) if *addr != 0xE0 => {
                Ok(Instruction::MovDirectA(*addr))
            },
            (Operand::Direct(addr), Operand::Register(Register::R(r))) => {
                Ok(Instruction::MovDirectReg(*addr, *r))
            },
            (Operand::Direct(addr), Operand::Direct(addr2)) => {
                Ok(Instruction::MovDirectDirect(*addr, *addr2))
            },
            (Operand::Direct(addr), Operand::IndirectReg(Register::R(r))) if *r < 2 => {
                Ok(Instruction::MovDirectIndirReg(*addr, *r))
            },
            (Operand::Direct(addr), Operand::Immediate(imm)) if *imm >= -128 && *imm <= 255 => {
                Ok(Instruction::MovDirectData(*addr, Data::Number(byte_of(*imm))))
            },
            (Operand::Direct(addr), Operand::ImmediateId(id)) => {
                Ok(Instruction::MovDirectData(*addr, Data::Identifier(id.clone())))
            },
            (Operand::IndirectReg(Register::R(r)), Operand::Register(Register::A)) if *r < 2 => {
                Ok(Instruction::MovIndirRegA(*r))
            },
            (Operand::IndirectReg(Register::R(r)), Operand::Direct(addr)) if *r < 2 => {
                Ok(Instruction::MovIndirRegDirect(*r, *addr))
            },
            (
                Operand::IndirectReg(Register::R(r)),
                Operand::Immediate(imm),
            ) if *r < 2 && *imm >= -128 && *imm <= 255 => {
                Ok(Instruction::MovIndirRegData(*r, Data::Number(byte_of(*imm))))
            },
            (Operand::IndirectReg(Register::R(r)), Operand::ImmediateId(id)) if *r < 2 => {
                Ok(Instruction::MovIndirRegData(*r, Data::Identifier(id.clone())))
            },
            (Operand::Register(Register::C), Operand::DirectBit(bit)) => {
                Ok(Instruction::MovCBit(*bit))
            },
            (Operand::DirectBit(bit), Operand::Register(Register::C)) => {
                Ok(Instruction::MovBitC(*bit))
            },
            (
                Operand::Register(Register::DPTR),
                Operand::Immediate(addr),
            ) if *addr >= 0 && *addr < 65536 => {
                Ok(Instruction::MovDptrData(Address::Number(*addr as u16)))
            },
            (Operand::Register(Register::DPTR), Operand::ImmediateId(id)) => {
                Ok(Instruction::MovDptrData(Address::Label(id.clone())))
            },
            _ => Self::invalid_operand(operator, operands[1].clone(), 1),
        }
    }

    fn from_movc(operands: &Vec<Operand>) -> (r: Result<Instruction, InstructionError>)
        ensures
            result_view(r) == lower(Operator::Movc, operand_views(operands@)),
    {
        let operator = Operator::Movc;
        Self::expect_operands(operator, operands, 2)?;
        match &operands[0] {
            Operand::Register(Register::A) => (),
            _ => {
                return Self::invalid_operand(operator, operands[0].clone(), 0);
            },
        }
        match (&operands[0], &operands[1]) {
            (Operand::Register(Register::A), Operand::IndirectSum(Register::A, Register::DPTR)) => {
                Ok(Instruction::MovcAIndirAPlusDptr)
            },
            (Operand::Register(Register::A), Operand::IndirectSum(Register::A, Register::PC)) => {
                Ok(Instruction::MovcAIndirAPlusPc)
            },
            _ => Self::invalid_operand(operator, operands[1].clone(), 1),
        }
    }

    fn from_movx(operands: &Vec<Operand>) -> (r: Result<Instruction, InstructionError>)
        ensures
            result_view(r) == lower(Operator::Movx, operand_views(operands@)),
    {
        let operator = Operator::Movx;
        Self::expect_operands(operator, operands, 2)?;
        match &operands[0] {
            Operand::Register(Register::A) => (),
            Operand::IndirectReg(Register::DPTR) => (),
            Operand::IndirectReg(Register::R(r)) if *r < 2 => (),
            _ => {
                return Self::invalid_operand(operator, operands[0].clone(), 0);
            },
        }
        match (&operands[0], &operands[1]) {
            (Operand::Register(Register::A), Operand::IndirectReg(Register::R(r))) if *r < 2 => {
                Ok(Instruction::MovxAIndirReg(*r))
            },
            (Operand::Register(Register::A), Operand::IndirectReg(Register::DPTR)) => {
                Ok(Instruction::MovxAIndirDptr)
            },
            (Operand::IndirectReg(Register::R(r)), Operand::Register(Register::A)) if *r < 2 => {
                Ok(Instruction::MovxIndirRegA(*r))
            },
            (Operand::IndirectReg(Register::DPTR), Operand::Register(Register::A)) => {
                Ok(Instruction::MovxIndirDptrA)
            },
            _ => Self::invalid_operand(operator, operands[1].clone(), 1),
        }
    }

    fn from_mul(operands: &Vec<Operand>) -> (r: Result<Instruction, InstructionError>)
        ensures
            result_view(r) == lower(Operator::Mul, operand_views(operands@)),
    {
        let operator = Operator::Mul;
        Self::expect_operands(operator, operands, 2)?;
        match &operands[0] {
            Operand::Register(Register::A) => (),
            _ => {
                return Self::invalid_operand(operator, operands[0].clone(), 0);
            },
        }
        match (&operands[0], &operands[1]) {
            (Operand::Register(Register::A), Operand::Direct(0xF0)) => Ok(Instruction::MulAB),
            _ => Self::invalid_operand(operator, operands[1].clone(), 1),
        }
    }

    fn from_orl(operands: &Vec<Operand>) -> (r: Result<Instruction, InstructionError>)
        ensures
            result_view(r) == lower(Operator::Orl, operand_views(operands@)),
    {
        let operator = Operator::Orl;
        Self::expect_operands(operator, operands, 2)?;
        match &operands[0] {
            Operand::Register(Register::A) => (),
            Operand::Register(Register::C) => (),
            Operand::Direct(_) => (),
            _ => {
                return Self::invalid_operand(operator, operands[0].clone(), 0);
            },
        }
        match (&operands[0], &operands[1]) {
            (Operand::Register(Register::A), Operand::Register(Register::R(r))) => {
                Ok(Instruction::OrlAReg(*r))
            },
            (Operand::Register(Register::A), Operand::Direct(addr)) => {
                Ok(Instruction::OrlADirect(*addr))
            },
            (Operand::Register(Register::A), Operand::IndirectReg(Register::R(r))) if *r < 2 => {
                Ok(Instruction::OrlAIndirReg(*r))
            },
            (
                Operand::Register(Register::A),
                Operand::Immediate(imm),
            ) if *imm >= -128 && *imm <= 255 => {
                Ok(Instruction::OrlAData(Data::Number(byte_of(*imm))))
            },
            (Operand::Register(Register::A), Operand::ImmediateId(id)) => {
                Ok(Instruction::OrlAData(Data::Identifier(id.clone())))
            },
            (Operand::Direct(addr), Operand::Register(Register::A)) => {
                Ok(Instruction::OrlDirectA(*addr))
            },
            (Operand::Direct(addr), Operand::Immediate(imm)) if *imm >= -128 && *imm <= 255 => {
                Ok(Instruction::OrlDirectData(*addr, Data::Number(byte_of(*imm))))
            },
            (Operand::Direct(addr), Operand::ImmediateId(id)) => {
                Ok(Instruction::OrlDirectData(*addr, Data::Identifier(id.clone())))
            },
            (Operand::Register(Register::C), Operand::DirectBit(bit)) => {
                Ok(Instruction::OrlCBit(*bit))
            },
            _ => Self::invalid_operand(operator, operands[1].clone(), 1),
        }
    }

    fn from_pop(operands: &Vec<Operand>) -> (r: Result<Instruction, InstructionError>)
        ensures
            result_view(r) == lower(Operator::Pop, operand_views(operands@)),
    {
        let operator = Operator::Pop;
        Self::expect_operands(operator, operands, 1)?;
        match &operands[0] {
            Operand::Direct(addr) => Ok(Instruction::PopDirect(*addr)),
            _ => Self::invalid_operand(operator, operands[0].clone(), 0),
        }
    }

    fn from_push(operands: &Vec<Operand>) -> (r: Result<Instruction, InstructionError>)
        ensures
            result_view(r) == lower(Operator::Push, operand_views(operands@)),
    {
        let operator = Operator::Push;
        Self::expect_operands(operator, operands, 1)?;
        match &operands[0] {
            Operand::Direct(addr) => Ok(Instruction::PushDirect(*addr)),
            _ => Self::invalid_operand(operator, operands[0].clone(), 0),
        }
    }

    fn from_rl(operands: &Vec<Operand>) -> (r: Result<Instruction, InstructionError>)
        ensures
            result_view(r) == lower(Operator::Rl, operand_views(operands@)),
    {
        let operator = Operator::Rl;
        Self::expect_operands(operator, operands, 1)?;
        match &operands[0] {
            Operand::Register(Register::A) => Ok(Instruction::RlA),
            _ => Self::invalid_operand(operator, operands[0].clone(), 0),
        }
    }

    fn from_rlc(operands: &Vec<Operand>) -> (r: Result<Instruction, InstructionError>)
        ensures
            result_view(r) == lower(Operator::Rlc, operand_views(operands@)),
    {
        let operator = Operator::Rlc;
        Self::expect_operands(operator, operands, 1)?;
        match &operands[0] {
            Operand::Register(Register::A) => Ok(Instruction::RlcA),
            _ => Self::invalid_operand(operator, operands[0].clone(), 0),
        }
    }

    fn from_rr(operands: &Vec<Operand>) -> (r: Result<Instruction, InstructionError>)
        ensures
            result_view(r) == lower(Operator::Rr, operand_views(operands@)),
    {
        let operator = Operator::Rr;
        Self::expect_operands(operator, operands, 1)?;
        match &operands[0] {
            Operand::Register(Register::A) => Ok(Instruction::RrA),
            _ => Self::invalid_operand(operator, operands[0].clone(), 0),
        }
    }

    fn from_rrc(operands: &Vec<Operand>) -> (r: Result<Instruction, InstructionError>)
        ensures
            result_view(r) == lower(Operator::Rrc, operand_views(operands@)),
    {
        let operator = Operator::Rrc;
        Self::expect_operands(operator, operands, 1)?;
        match &operands[0] {
            Operand::Register(Register::A) => Ok(Instruction::RrcA),
            _ => Self::invalid_operand(operator, operands[0].clone(), 0),
        }
    }

    fn from_setb(operands: &Vec<Operand>) -> (r: Result<Instruction, InstructionError>)
        ensures
            result_view(r) == lower(Operator::Setb, operand_views(operands@)),
    {
        let operator = Operator::Setb;
        Self::expect_operands(operator, operands, 1)?;
        match &operands[0] {
            Operand::Register(Register::C) => Ok(Instruction::SetbC),
            Operand::DirectBit(bit) => Ok(Instruction::SetbBit(*bit)),
            _ => Self::invalid_operand(operator, operands[0].clone(), 0),
        }
    }

    fn from_sjmp(operands: &Vec<Operand>) -> (r: Result<Instruction, InstructionError>)
        ensures
            result_view(r) == lower(Operator::Sjmp, operand_views(operands@)),
    {
        let operator = Operator::Sjmp;
        Self::expect_operands(operator, operands, 1)?;
        match &operands[0] {
            Operand::ImmediateId(addr) => Ok(Instruction::Sjmp(Address::Label(addr.clone()))),
            _ => Self::invalid_operand(operator, operands[0].clone(), 0),
        }
    }

    fn from_subb(operands: &Vec<Operand>) -> (r: Result<Instruction, InstructionError>)
        ensures
            result_view(r) == lower(Operator::Subb, operand_views(operands@)),
    {
        let operator = Operator::Subb;
        Self::expect_operands(operator, operands, 2)?;
        match &operands[0] {
            Operand::Register(Register::A) => (),
            _ => {
                return Self::invalid_operand(operator, operands[0].clone(), 0);
            },
        }
        match (&operands[0], &operands[1]) {
            (Operand::Register(Register::A), Operand::Register(Register::R(r))) => {
                Ok(Instruction::SubbAReg(*r))
            },
            (Operand::Register(Register::A), Operand::Direct(addr)) => {
                Ok(Instruction::SubbADirect(*addr))
            },
            (Operand::Register(Register::A), Operand::IndirectReg(Register::R(r))) if *r < 2 => {
                Ok(Instruction::SubbAIndirReg(*r))
            },
            (
                Operand::Register(Register::A),
                Operand::Immediate(imm),
            ) if *imm >= -128 && *imm <= 255 => {
                Ok(Instruction::SubbAData(Data::Number(byte_of(*imm))))
            },
            (Operand::Register(Register::A), Operand::ImmediateId(id)) => {
                Ok(Instruction::SubbAData(Data::Identifier(id.clone())))
            },
            _ => Self::invalid_operand(operator, operands[1].clone(), 1),
        }
    }

    fn from_swap(operands: &Vec<Operand>) -> (r: Result<Instruction, InstructionError>)
        ensures
            result_view(r) == lower(Operator::Swap, operand_views(operands@)),
    {
        let operator = Operator::Swap;
        Self::expect_operands(operator, operands, 1)?;
        match &operands[0] {
            Operand::Register(Register::A) => Ok(Instruction::SwapA),
            _ => Self::invalid_operand(operator, operands[0].clone(), 0),
        }
    }

    fn from_xch(operands: &Vec<Operand>) -> (r: Result<Instruction, InstructionError>)
        ensures
            result_view(r) == lower(Operator::Xch, operand_views(operands@)),
    {
        let operator = Operator::Xch;
        Self::expect_operands(operator, operands, 2)?;
        match &operands[0] {
            Operand::Register(Register::A) => (),
            _ => {
                return Self::invalid_operand(operator, operands[0].clone(), 0);
            },
        }
        match (&operands[0], &operands[1]) {
            (Operand::Register(Register::A), Operand::Register(Register::R(r))) => {
                Ok(Instruction::XchAReg(*r))
            },
            (Operand::Register(Register::A), Operand::Direct(addr)) => {
                Ok(Instruction::XchADirect(*addr))
            },
            (Operand::Register(Register::A), Operand::IndirectReg(Register::R(r))) if *r < 2 => {
                Ok(Instruction::XchAIndirReg(*r))
            },
            _ => Self::invalid_operand(operator, operands[1].clone(), 1),
        }
    }

    fn from_xchd(operands: &Vec<Operand>) -> (r: Result<Instruction, InstructionError>)
        ensures
            result_view(r) == lower(Operator::Xchd, operand_views(operands@)),
    {
        let operator = Operator::Xchd;
        Self::expect_operands(operator, operands, 2)?;
        match &operands[0] {
            Operand::Register(Register::A) => (),
            _ => {
                return Self::invalid_operand(operator, operands[0].clone(), 0);
            },
        }
        match (&operands[0], &operands[1]) {
            (Operand::Register(Register::A), Operand::IndirectReg(Register::R(r))) if *r < 2 => {
                Ok(Instruction::XchdAIndirReg(*r))
            },
            _ => Self::invalid_operand(operator, operands[1].clone(), 1),
        }
    }

    fn from_xrl(operands: &Vec<Operand>) -> (r: Result<Instruction, InstructionError>)
        ensures
            result_view(r) == lower(Operator::Xrl, operand_views(operands@)),
    {
        let operator = Operator::Xrl;
        Self::expect_operands(operator, operands, 2)?;
        match &operands[0] {
            Operand::Register(Register::A) => (),
            Operand::Direct(_) => (),
            _ => {
                return Self::invalid_operand(operator, operands[0].clone(), 0);
            },
        }
        match (&operands[0], &operands[1]) {
            (Operand::Register(Register::A), Operand::Register(Register::R(r))) => {
                Ok(Instruction::XrlAReg(*r))
            },
            (Operand::Register(Register::A), Operand::Direct(addr)) => {
                Ok(Instruction::XrlADirect(*addr))
            },
            (Operand::Register(Register::A), Operand::IndirectReg(Register::R(r))) if *r < 2 => {
                Ok(Instruction::XrlAIndirReg(*r))
            },
            (
                Operand::Register(Register::A),
                Operand::Immediate(imm),
            ) if *imm >= -128 && *imm <= 255 => {
                Ok(Instruction::XrlAData(Data::Number(byte_of(*imm))))
            },
            (Operand::Register(Register::A), Operand::ImmediateId(id)) => {
                Ok(Instruction::XrlAData(Data::Identifier(id.clone())))
            },
            (Operand::Direct(addr), Operand::Register(Register::A)) => {
                Ok(Instruction::XrlDirectA(*addr))
            },
            (Operand::Direct(addr), Operand::Immediate(imm)) if *imm >= -128 && *imm <= 255 => {
                Ok(Instruction::XrlDirectData(*addr, Data::Number(byte_of(*imm))))
            },
            (Operand::Direct(addr), Operand::ImmediateId(id)) => {
                Ok(Instruction::XrlDirectData(*addr, Data::Identifier(id.clone())))
            },
            _ => Self::invalid_operand(operator, operands[1].clone(), 1),
        }
    }

    /// Checks the operands of a mnemonic against the forms that it accepts
    /// and builds the instruction.
    pub fn from_code(operator: Operator, operands: Vec<Operand>) -> (r: Result<
        Instruction,
        InstructionError,
    >)
        ensures
            result_view(r) == lower(operator, operand_views(operands@)),
    {
        match operator {
            Operator::Acall => Self::from_acall(&operands),
            Operator::Add => Self::from_add(&operands),
            Operator::Addc => Self::from_addc(&operands),
            Operator::Ajmp => Self::from_ajmp(&operands),
            Operator::Anl => Self::from_anl(&operands),
            Operator::Call => Err(InstructionError::UnsupportedOperator(operator)),
            Operator::Cjne => Self::from_cjne(&operands),
            Operator::Clr => Self::from_clr(&operands),
            Operator::Cpl => Self::from_cpl(&operands),
            Operator::Da => Self::from_da(&operands),
            Operator::Dec => Self::from_dec(&operands),
            Operator::Div => Self::from_div(&operands),
            Operator::Djnz => Self::from_djnz(&operands),
            Operator::Inc => Self::from_inc(&operands),
            Operator::Jb => Self::from_jb(&operands),
            Operator::Jbc => Self::from_jbc(&operands),
            Operator::Jc => Self::from_jc(&operands),
            Operator::Jmp => Self::from_jmp(&operands),
            Operator::Jnb => Self::from_jnb(&operands),
            Operator::Jnc => Self::from_jnc(&operands),
            Operator::Jnz => Self::from_jnz(&operands),
            Operator::Jz => Self::from_jz(&operands),
            Operator::Lcall => Self::from_lcall(&operands),
            Operator::Ljmp => Self::from_ljmp(&operands),
            Operator::Mov => Self::from_mov(&operands),
            Operator::Movc => Self::from_movc(&operands),
            Operator::Movx => Self::from_movx(&operands),
            Operator::Mul => Self::from_mul(&operands),
            Operator::Nop => {
                Self::expect_operands(operator, &operands, 0)?;
                Ok(Instruction::Nop)
            },
            Operator::Orl => Self::from_orl(&operands),
            Operator::Pop => Self::from_pop(&operands),
            Operator::Push => Self::from_push(&operands),
            Operator::Ret => {
                Self::expect_operands(operator, &operands, 0)?;
                Ok(Instruction::Ret)
            },
            Operator::Reti => {
                Self::expect_operands(operator, &operands, 0)?;
                Ok(Instruction::Reti)
            },
            Operator::Rl => Self::from_rl(&operands),
            Operator::Rlc => Self::from_rlc(&operands),
            Operator::Rr => Self::from_rr(&operands),
            Operator::Rrc => Self::from_rrc(&operands),
            Operator::Setb => Self::from_setb(&operands),
            Operator::Sjmp => Self::from_sjmp(&operands),
            Operator::Subb => Self::from_subb(&operands),
            Operator::Swap => Self::from_swap(&operands),
            Operator::Xch => Self::from_xch(&operands),
            Operator::Xchd => Self::from_xchd(&operands),
            Operator::Xrl => Self::from_xrl(&operands),
        }
    }

    /// The bytes of the instruction when it stands at `cur_addr`, with names
    /// read from `identifiers`.
    #[verifier::rlimit(100)]
    pub fn to_bytes(&self, identifiers: &SymbolTable, cur_addr: u16) -> (r: Result<
        Vec<u8>,
        InstructionError,
    >)
        ensures
            result_view(r) == self@.encode(identifiers@, cur_addr),
    {
        match self {
            Instruction::Acall(addr) => {
                let target = addr.to_u16(identifiers)?;
                Ok(two(page_byte(target, 0x11), low(target)))
            },
            Instruction::AddAReg(r) => Ok(one(0x28 | *r)),
            Instruction::AddADirect(dir) => Ok(two(0x25, *dir)),
            Instruction::AddAIndirReg(r) => Ok(one(0x26 | *r)),
            Instruction::AddAData(data) => {
                let data = data.to_u8(identifiers)?;
                Ok(two(0x24, data))
            },
            Instruction::AddcAReg(r) => Ok(one(0x38 | *r)),
            Instruction::AddcADirect(dir) => Ok(two(0x35, *dir)),
            Instruction::AddcAIndirReg(r) => Ok(one(0x36 | *r)),
            Instruction::AddcAData(data) => {
                let data = data.to_u8(identifiers)?;
                Ok(two(0x34, data))
            },
            Instruction::Ajmp(addr) => {
                let target = addr.to_u16(identifiers)?;
                Ok(two(page_byte(target, 0x01), low(target)))
            },
            Instruction::AnlAReg(r) => Ok(one(0x58 | *r)),
            Instruction::AnlADirect(dir) => Ok(two(0x55, *dir)),
            Instruction::AnlAIndirReg(r) => Ok(one(0x56 | *r)),
            Instruction::AnlAData(data) => {
                let data = data.to_u8(identifiers)?;
                Ok(two(0x54, data))
            },
            Instruction::AnlDirectA(dir) => Ok(two(0x52, *dir)),
            Instruction::AnlDirectData(dir, data) => {
                let data = data.to_u8(identifiers)?;
                Ok(three(0x53, *dir, data))
            },
            Instruction::AnlCBit(bit) => Ok(two(0x82, *bit)),
            Instruction::AnlCNegBit(bit) => Ok(two(0xB0, *bit)),
            Instruction::CjneADirRel(dir, addr) => {
                let target = addr.to_u16(identifiers)?;
                Ok(three(0xB5, *dir, rel_byte(target, cur_addr, 3)))
            },
            Instruction::CjneADataRel(data, addr) => {
                let data = data.to_u8(identifiers)?;
                let target = addr.to_u16(identifiers)?;
                Ok(three(0xB4, data, rel_byte(target, cur_addr, 3)))
            },
            Instruction::CjneRegDataRel(r, data, addr) => {
                let data = data.to_u8(identifiers)?;
                let target = addr.to_u16(identifiers)?;
                Ok(three(0xB8 | *r, data, rel_byte(target, cur_addr, 3)))
            },
            Instruction::CjneIndirRegDataRel(r, data, addr) => {
                let data = data.to_u8(identifiers)?;
                let target = addr.to_u16(identifiers)?;
                Ok(three(0xB6 | *r, data, rel_byte(target, cur_addr, 3)))
            },
            Instruction::ClrA => Ok(one(0xE4)),
            Instruction::ClrC => Ok(one(0xC3)),
            Instruction::ClrBit(bit) => Ok(two(0xC2, *bit)),
            Instruction::CplA => Ok(one(0xF4)),
            Instruction::CplC => Ok(one(0xB3)),
            Instruction::CplBit(bit) => Ok(two(0xB2, *bit)),
            Instruction::DaA => Ok(one(0xD4)),
            Instruction::DecA => Ok(one(0x14)),
            Instruction::DecReg(r) => Ok(one(0x18 | *r)),
            Instruction::DecDirect(dir) => Ok(two(0x15, *dir)),
            Instruction::DecIndirReg(r) => Ok(one(0x16 | *r)),
            Instruction::DivAB => Ok(one(0x84)),
            Instruction::DjnzRegRel(r, addr) => {
                let target = addr.to_u16(identifiers)?;
                Ok(two(0xD8 | *r, rel_byte(target, cur_addr, 2)))
            },
            Instruction::DjnzDirectRel(dir, addr) => {
                let target = addr.to_u16(identifiers)?;
                Ok(three(0xD5, *dir, rel_byte(target, cur_addr, 3)))
            },
            Instruction::IncA => Ok(one(0x04)),
            Instruction::IncReg(r) => Ok(one(0x08 | *r)),
            Instruction::IncDirect(dir) => Ok(two(0x05, *dir)),
            Instruction::IncIndirReg(r) => Ok(one(0x06 | *r)),
            Instruction::IncDptr => Ok(one(0xA3)),
            Instruction::JbBitRel(bit, addr) => {
                let target = addr.to_u16(identifiers)?;
                Ok(three(0x20, *bit, rel_byte(target, cur_addr, 3)))
            },
            Instruction::JbcBitRel(bit, addr) => {
                let target = addr.to_u16(identifiers)?;
                Ok(three(0x10, *bit, rel_byte(target, cur_addr, 3)))
            },
            Instruction::JcRel(addr) => {
                let target = addr.to_u16(identifiers)?;
                Ok(two(0x40, rel_byte(target, cur_addr, 2)))
            },
            Instruction::JmpIndirAPlusDptr => Ok(one(0x73)),
            Instruction::JnbBitRel(bit, addr) => {
                let target = addr.to_u16(identifiers)?;
                Ok(three(0x30, *bit, rel_byte(target, cur_addr, 3)))
            },
            Instruction::JncRel(addr) => {
                let target = addr.to_u16(identifiers)?;
                Ok(two(0x50, rel_byte(target, cur_addr, 2)))
            },
            Instruction::JnzRel(addr) => {
                let target = addr.to_u16(identifiers)?;
                Ok(two(0x70, rel_byte(target, cur_addr, 2)))
            },
            Instruction::JzRel(addr) => {
                let target = addr.to_u16(identifiers)?;
                Ok(two(0x60, rel_byte(target, cur_addr, 2)))
            },
            Instruction::Lcall(addr) => {
                let target = addr.to_u16(identifiers)?;
                Ok(three(0x12, high(target), low(target)))
            },
            Instruction::Ljmp(addr) => {
                let target = addr.to_u16(identifiers)?;
                Ok(three(0x02, high(target), low(target)))
            },
            Instruction::MovAReg(r) => Ok(one(0xE8 | *r)),
            Instruction::MovADirect(dir) => Ok(two(0xE5, *dir)),
            Instruction::MovAIndirReg(r) => Ok(one(0xE6 | *r)),
            Instruction::MovAData(data) => {
                let data = data.to_u8(identifiers)?;
                Ok(two(0x74, data))
            },
            Instruction::MovRegA(r) => Ok(one(0xF8 | *r)),
            Instruction::MovRegDir(r, dir) => Ok(two(0xA8 | *r, *dir)),
            Instruction::MovRegData(r, data) => {
                let data = data.to_u8(identifiers)?;
                Ok(two(0x78 | *r, data))
            },
            Instruction::MovDirectA(dir) => Ok(two(0xF5, *dir)),
            Instruction::MovDirectReg(dir, r) => Ok(two(0x88 | *r, *dir)),
            Instruction::MovDirectDirect(dir, dir2) => Ok(three(0x85, *dir2, *dir)),
            Instruction::MovDirectIndirReg(dir, r) => Ok(two(0x86 | *r, *dir)),
            Instruction::MovDirectData(dir, data) => {
                let data = data.to_u8(identifiers)?;
                Ok(three(0x75, *dir, data))
            },
            Instruction::MovIndirRegA(r) => Ok(one(0xF6 | *r)),
            Instruction::MovIndirRegDirect(r, dir) => Ok(two(0xA6 | *r, *dir)),
            Instruction::MovIndirRegData(r, data) => {
                let data = data.to_u8(identifiers)?;
                Ok(two(0x76 | *r, data))
            },
            Instruction::MovCBit(bit) => Ok(two(0xA2, *bit)),
            Instruction::MovBitC(bit) => Ok(two(0x92, *bit)),
            Instruction::MovDptrData(addr) => {
                let target = addr.to_u16(identifiers)?;
                Ok(three(0x90, high(target), low(target)))
            },
            Instruction::MovcAIndirAPlusDptr => Ok(one(0x93)),
            Instruction::MovcAIndirAPlusPc => Ok(one(0x83)),
            Instruction::MovxAIndirReg(r) => Ok(one(0xE2 | *r)),
            Instruction::MovxAIndirDptr => Ok(one(0xE0)),
            Instruction::MovxIndirRegA(r) => Ok(one(0xF2 | *r)),
            Instruction::MovxIndirDptrA => Ok(one(0xF0)),
            Instruction::MulAB => Ok(one(0xA4)),
            Instruction::Nop => Ok(one(0x00)),
            Instruction::OrlAReg(r) => Ok(one(0x48 | *r)),
            Instruction::OrlADirect(dir) => Ok(two(0x45, *dir)),
            Instruction::OrlAIndirReg(r) => Ok(one(0x46 | *r)),
            Instruction::OrlAData(data) => {
                let data = data.to_u8(identifiers)?;
                Ok(two(0x44, data))
            },
            Instruction::OrlDirectA(dir) => Ok(two(0x42, *dir)),
            Instruction::OrlDirectData(dir, data) => {
                let data = data.to_u8(identifiers)?;
                Ok(three(0x43, *dir, data))
            },
            Instruction::OrlCBit(bit) => Ok(two(0x72, *bit)),
            Instruction::OrlCNegBit(bit) => Ok(two(0xA0, *bit)),
            Instruction::PopDirect(dir) => Ok(two(0xD0, *dir)),
            Instruction::PushDirect(dir) => Ok(two(0xC0, *dir)),
            Instruction::Ret => Ok(one(0x22)),
            Instruction::Reti => Ok(one(0x32)),
            Instruction::RlA => Ok(one(0x23)),
            Instruction::RlcA => Ok(one(0x33)),
            Instruction::RrA => Ok(one(0x03)),
            Instruction::RrcA => Ok(one(0x13)),
            Instruction::SetbC => Ok(one(0xD3)),
            Instruction::SetbBit(bit) => Ok(two(0xD2, *bit)),
            Instruction::Sjmp(addr) => {
                let target = addr.to_u16(identifiers)?;
                Ok(two(0x80, rel_byte(target, cur_addr, 2)))
            },
            Instruction::SubbAReg(r) => Ok(one(0x98 | *r)),
            Instruction::SubbADirect(dir) => Ok(two(0x95, *dir)),
            Instruction::SubbAIndirReg(r) => Ok(one(0x96 | *r)),
            Instruction::SubbAData(data) => {
                let data = data.to_u8(identifiers)?;
                Ok(two(0x94, data))
            },
            Instruction::SwapA => Ok(one(0xC4)),
            Instruction::XchAReg(r) => Ok(one(0xC8 | *r)),
            Instruction::XchADirect(dir) => Ok(two(0xC5, *dir)),
            Instruction::XchAIndirReg(r) => Ok(one(0xC6 | *r)),
            Instruction::XchdAIndirReg(r) => Ok(one(0xD6 | *r)),
            Instruction::XrlAReg(r) => Ok(one(0x68 | *r)),
            Instruction::XrlADirect(dir) => Ok(two(0x65, *dir)),
            Instruction::XrlAIndirReg(r) => Ok(one(0x66 | *r)),
            Instruction::XrlAData(data) => {
                let data = data.to_u8(identifiers)?;
                Ok(two(0x64, data))
            },
            Instruction::XrlDirectA(dir) => Ok(two(0x62, *dir)),
            Instruction::XrlDirectData(dir, data) => {
                let data = data.to_u8(identifiers)?;
                Ok(three(0x63, *dir, data))
            },
            Instruction::Bytes(b) => {
                let v = b.clone();
                assert(v@ =~= b@);
                Ok(v)
            },
        }
    }
}

/// An instruction that can be written takes as many bytes as its addressing
/// form says, whatever the symbol table holds and wherever it stands.
pub proof fn lemma_encoded_length(
    instruction: InstructionView,
    symbols: Map<Seq<char>, i32>,
    addr: u16,
)
    ensures
        instruction.encode(symbols, addr) matches Ok(bytes) ==> bytes.len() == instruction.size(),
{
}

/// The last byte of a relative jump is the distance from the end of the
/// instruction to its target, modulo 256: a target out of reach wraps and is
/// no error.
pub proof fn lemma_relative_jump_wraps(
    instruction: InstructionView,
    symbols: Map<Seq<char>, i32>,
    addr: u16,
)
    requires
        instruction.relative_target() is Some,
        instruction.encode(symbols, addr) is Ok,
    ensures
        instruction.relative_target() matches Some(to) && to.resolve(symbols) matches Ok(target)
            && instruction.encode(symbols, addr) matches Ok(bytes) && bytes.last() == ((target - (
        addr + instruction.size())) % 256) as u8,
{
}

/// A relative jump to its own address has the displacement of minus its own
/// length: 0xFE for two bytes, 0xFD for three.
pub proof fn lemma_jump_to_self(addr: u16, len: int)
    requires
        1 <= len <= 3,
    ensures
        displacement(addr, addr, len) == 256 - len,
{
}

/// An instruction built from operands takes only R0 or R1 as a pointer.
pub proof fn lemma_pointer_is_r0_or_r1(operator: Operator, ops: Seq<OperandView>)
    ensures
        lower(operator, ops) matches Ok(instruction) ==> (instruction.pointer() matches Some(r)
            ==> r < 2),
{
}

} // verus!
