//! The layout pass, which gives every instruction its address and every
//! name its value, and the writer of the Intel HEX image.
use crate::mir::instruction::{
    lower, Instruction, InstructionError, InstructionErrorView, InstructionView,
};
use crate::mir::symbols::SymbolTable;
use crate::parser::ast::{
    line_views, operand_views, result_view, value_views, values_bytes, Line, LineBody,
    LineBodyView, LineView, Operand, Program, Value,
};
use vstd::prelude::*;

verus! {

/// Where the layout pass stands after some lines: the names defined so far,
/// the instructions placed so far, and the address of the next one.
pub struct Layout {
    pub symbols: Map<Seq<char>, i32>,
    pub instructions: Seq<(u16, InstructionView)>,
    pub address: u16,
}

/// An address moved on by a number of bytes. Addresses wrap at 64K.
pub open spec fn advance(address: u16, by: nat) -> u16 {
    ((address + by) % 0x10000) as u16
}

/// The table with one more name, which it must not hold yet.
pub open spec fn define(layout: Layout, name: Seq<char>, value: i32) -> Result<
    Layout,
    InstructionErrorView,
> {
    if layout.symbols.contains_key(name) {
        Err(InstructionErrorView::DuplicateIdentifier(name))
    } else {
        Ok(Layout { symbols: layout.symbols.insert(name, value), ..layout })
    }
}

/// One more instruction at the current address, which then moves past it.
pub open spec fn place(layout: Layout, instruction: InstructionView) -> Layout {
    Layout {
        instructions: layout.instructions.push((layout.address, instruction)),
        address: advance(layout.address, instruction.size()),
        ..layout
    }
}

/// The body of a program line, placed at the current address.
pub open spec fn layout_body(layout: Layout, body: Option<LineBodyView>) -> Result<
    Layout,
    InstructionErrorView,
> {
    match body {
        None => Ok(layout),
        Some(LineBodyView::CodeLine { operator, operands }) => match lower(operator, operands) {
            Err(e) => Err(e),
            Ok(instruction) => Ok(place(layout, instruction)),
        },
        Some(LineBodyView::ValueDefinition { values }) => Ok(
            place(layout, InstructionView::Bytes(values_bytes(values))),
        ),
    }
}

/// The layout after one more line. `ORG` sets the address; `EQU` defines a
/// name; a label names the address it stands at, before its line is placed.
pub open spec fn layout_line(layout: Layout, line: LineView) -> Result<
    Layout,
    InstructionErrorView,
> {
    match line {
        LineView::OrgLine { address } => Ok(Layout { address, ..layout }),
        LineView::EquDef { id, value } => define(layout, id, value),
        LineView::ProgramLine { label, body } => match label {
            None => layout_body(layout, body),
            Some(name) => match define(layout, name, layout.address as i32) {
                Err(e) => Err(e),
                Ok(named) => layout_body(named, body),
            },
        },
    }
}

/// The layout of a program: its lines taken in order from address 0 with an
/// empty table, up to the first line that fails.
pub open spec fn layout(lines: Seq<LineView>) -> Result<Layout, InstructionErrorView>
    decreases lines.len(),
{
    if lines.len() == 0 {
        Ok(Layout { symbols: Map::empty(), instructions: Seq::empty(), address: 0 })
    } else {
        match layout(lines.drop_last()) {
            Err(e) => Err(e),
            Ok(before) => layout_line(before, lines.last()),
        }
    }
}

/// Once a line has failed, the lines after it change nothing.
pub proof fn lemma_layout_error_stays(lines: Seq<LineView>, k: int)
    requires
        0 <= k <= lines.len(),
        layout(lines.take(k)) is Err,
    ensures
        layout(lines) == layout(lines.take(k)),
    decreases lines.len() - k,
{
    if k < lines.len() {
        assert(lines.take(k + 1).drop_last() =~= lines.take(k));
        lemma_layout_error_stays(lines, k + 1);
    } else {
        assert(lines.take(k) =~= lines);
    }
}

/// Laying the same program out twice gives the same names with the same
/// values and the same instructions at the same addresses, or the same
/// error.
pub proof fn lemma_layout_is_deterministic(
    program: Program,
    first: Result<Mir, InstructionError>,
    second: Result<Mir, InstructionError>,
)
    requires
        call_ensures(Mir::from_program, (program,), first),
        call_ensures(Mir::from_program, (program,), second),
    ensures
        match (first, second) {
            (Ok(a), Ok(b)) => a@.symbols == b@.symbols && a@.instructions == b@.instructions,
            (Err(a), Err(b)) => a@ == b@,
            _ => false,
        },
{
}

/// Every label of a program that was laid out has the address at which its
/// line was reached.
pub proof fn lemma_label_names_address(lines: Seq<LineView>, k: int)
    requires
        0 <= k < lines.len(),
        layout(lines.take(k + 1)) is Ok,
        lines[k] matches LineView::ProgramLine { label: Some(_), .. },
    ensures
        layout(lines.take(k)) matches Ok(before) && layout(lines.take(k + 1)) matches Ok(after)
            && lines[k] matches LineView::ProgramLine { label: Some(name), .. }
            && after.symbols.contains_key(name) && after.symbols[name] == before.address,
{
    assert(lines.take(k + 1).drop_last() =~= lines.take(k));
    assert(lines.take(k + 1).last() == lines[k]);
}

/// The placed instructions, each by its view.
pub open spec fn instruction_views(instructions: Seq<(u16, Instruction)>) -> Seq<
    (u16, InstructionView),
> {
    Seq::new(instructions.len(), |i: int| (instructions[i].0, instructions[i].1@))
}

/// The hexadecimal digit of a number below 16, in upper case.
pub open spec fn hex_digit(n: int) -> char {
    if n < 10 {
        (48 + n) as char
    } else {
        (55 + n) as char
    }
}

/// The two hexadecimal digits of a byte.
pub open spec fn hex_byte(b: u8) -> Seq<char> {
    seq![hex_digit(b as int / 16), hex_digit(b as int % 16)]
}

/// The hexadecimal digits of a run of bytes.
pub open spec fn hex_bytes(bytes: Seq<u8>) -> Seq<char>
    decreases bytes.len(),
{
    if bytes.len() == 0 {
        Seq::empty()
    } else {
        hex_bytes(bytes.drop_last()) + hex_byte(bytes.last())
    }
}

/// The sum of a run of bytes.
pub open spec fn sum_bytes(bytes: Seq<u8>) -> int
    decreases bytes.len(),
{
    if bytes.len() == 0 {
        0
    } else {
        sum_bytes(bytes.drop_last()) + bytes.last()
    }
}

/// The count field of a data record: the number of data bytes, as one byte.
pub open spec fn record_count(bytes: Seq<u8>) -> u8 {
    (bytes.len() % 256) as u8
}

/// The sum of the fields of a data record that come before its checksum:
/// count, both halves of the address, the record type 0, and the data.
pub open spec fn record_sum(addr: u16, bytes: Seq<u8>) -> int {
    record_count(bytes) + addr / 256 + addr % 256 + 0 + sum_bytes(bytes)
}

/// The checksum of a data record: the two's complement of the sum of the
/// fields before it, as one byte.
pub open spec fn checksum(addr: u16, bytes: Seq<u8>) -> u8 {
    ((256 - record_sum(addr, bytes) % 256) % 256) as u8
}

/// One data record: a colon, then in hexadecimal the count, the address
/// with its high byte first, the type 00, the data and the checksum, and a
/// line feed.
pub open spec fn record(addr: u16, bytes: Seq<u8>) -> Seq<char> {
    seq![':'] + hex_byte(record_count(bytes)) + hex_byte((addr / 256) as u8) + hex_byte(
        (addr % 256) as u8,
    ) + seq!['0', '0'] + hex_bytes(bytes) + hex_byte(checksum(addr, bytes)) + seq!['\n']
}

/// The record that ends an image.
pub open spec fn end_record() -> Seq<char> {
    seq![':', '0', '0', '0', '0', '0', '0', '0', '1', 'F', 'F', '\n']
}

/// The data records of the placed instructions, one for each in order, up
/// to the first instruction that cannot be written.
pub open spec fn records(
    symbols: Map<Seq<char>, i32>,
    instructions: Seq<(u16, InstructionView)>,
) -> Result<Seq<char>, InstructionErrorView>
    decreases instructions.len(),
{
    if instructions.len() == 0 {
        Ok(Seq::empty())
    } else {
        match records(symbols, instructions.drop_last()) {
            Err(e) => Err(e),
            Ok(text) => match instructions.last().1.encode(symbols, instructions.last().0) {
                Err(e) => Err(e),
                Ok(bytes) => Ok(text + record(instructions.last().0, bytes)),
            },
        }
    }
}

/// The whole image: the data records and the end record.
pub open spec fn image(
    symbols: Map<Seq<char>, i32>,
    instructions: Seq<(u16, InstructionView)>,
) -> Result<Seq<char>, InstructionErrorView> {
    match records(symbols, instructions) {
        Err(e) => Err(e),
        Ok(text) => Ok(text + end_record()),
    }
}

/// Once an instruction cannot be written, those after it change nothing.
pub proof fn lemma_records_error_stays(
    symbols: Map<Seq<char>, i32>,
    instructions: Seq<(u16, InstructionView)>,
    k: int,
)
    requires
        0 <= k <= instructions.len(),
        records(symbols, instructions.take(k)) is Err,
    ensures
        records(symbols, instructions) == records(symbols, instructions.take(k)),
    decreases instructions.len() - k,
{
    if k < instructions.len() {
        assert(instructions.take(k + 1).drop_last() =~= instructions.take(k));
        lemma_records_error_stays(symbols, instructions, k + 1);
    } else {
        assert(instructions.take(k) =~= instructions);
    }
}

/// The fields of a data record, its checksum among them, add up to a
/// multiple of 256.
pub proof fn lemma_record_sums_to_zero(addr: u16, bytes: Seq<u8>)
    ensures
        (record_count(bytes) + addr / 256 + addr % 256 + 0 + sum_bytes(bytes) + checksum(
            addr,
            bytes,
        )) % 256 == 0,
{
}

fn hex_char(n: u8) -> (c: char)
    requires
        n < 16,
    ensures
        c == hex_digit(n as int),
{
    if n < 10 {
        (48 + n) as char
    } else {
        (55 + n) as char
    }
}

fn push_hex(text: &mut String, b: u8)
    ensures
        final(text)@ == old(text)@ + hex_byte(b),
{
    text.push(hex_char(b / 16));
    text.push(hex_char(b % 16));
    assert(text@ =~= old(text)@ + hex_byte(b));
}

fn clone_operands(operands: &Vec<Operand>) -> (r: Vec<Operand>)
    ensures
        operand_views(r@) == operand_views(operands@),
{
    let mut r: Vec<Operand> = Vec::new();
    let mut i: usize = 0;
    while i < operands.len()
        invariant
            i <= operands.len(),
            r.len() == i,
            forall|j: int| 0 <= j < i ==> r[j]@ == operands[j]@,
        decreases operands.len() - i,
    {
        r.push(operands[i].clone());
        i += 1;
    }
    assert(operand_views(r@) =~= operand_views(operands@));
    r
}

fn bytes_of(values: &Vec<Value>) -> (bytes: Vec<u8>)
    ensures
        bytes@ == values_bytes(value_views(values@)),
{
    let mut bytes: Vec<u8> = Vec::new();
    let mut i: usize = 0;
    while i < values.len()
        invariant
            i <= values.len(),
            bytes@ == values_bytes(value_views(values@).take(i as int)),
        decreases values.len() - i,
    {
        let mut chunk = values[i].to_bytes();
        bytes.append(&mut chunk);
        proof {
            let views = value_views(values@);
            assert(views.take(i + 1).drop_last() =~= views.take(i as int));
            assert(views.take(i + 1).last() == values[i as int]@);
        }
        i += 1;
    }
    assert(value_views(values@).take(values.len() as int) =~= value_views(values@));
    bytes
}

/// A program laid out: the value of every name, and every instruction with
/// its address.
pub struct Mir {
    identifiers: SymbolTable,
    instructions: Vec<(u16, Instruction)>,
}

pub struct MirView {
    pub symbols: Map<Seq<char>, i32>,
    pub instructions: Seq<(u16, InstructionView)>,
}

impl View for Mir {
    type V = MirView;

    closed spec fn view(&self) -> MirView {
        MirView {
            symbols: self.identifiers@,
            instructions: instruction_views(self.instructions@),
        }
    }
}

impl Mir {
    /// The symbol table.
    pub fn identifiers(&self) -> (table: &SymbolTable)
        ensures
            table@ == self@.symbols,
    {
        &self.identifiers
    }

    /// The placed instructions, in order.
    pub fn instructions(&self) -> (placed: &Vec<(u16, Instruction)>)
        ensures
            instruction_views(placed@) == self@.instructions,
    {
        &self.instructions
    }

    fn define(identifiers: &mut SymbolTable, name: &String, value: i32) -> (r: Result<
        (),
        InstructionError,
    >)
        ensures
            match r {
                Ok(_) => !old(identifiers)@.contains_key(name@) && final(identifiers)@ == old(
                    identifiers,
                )@.insert(name@, value),
                Err(e) => old(identifiers)@.contains_key(name@) && e@
                    == InstructionErrorView::DuplicateIdentifier(name@),
            },
    {
        if identifiers.contains(name.as_str()) {
            Err(InstructionError::DuplicateIdentifier(name.clone()))
        } else {
            identifiers.insert(name.clone(), value);
            Ok(())
        }
    }

    /// Lays a program out from address 0: gives every name its value and
    /// every instruction its address, and stops at the first line that
    /// defines a name twice or holds operands that fit no instruction.
    pub fn from_program(program: Program) -> (r: Result<Mir, InstructionError>)
        ensures
            match r {
                Ok(mir) => layout(program@) matches Ok(done) && mir@.symbols == done.symbols
                    && mir@.instructions == done.instructions,
                Err(e) => layout(program@) matches Err(why) && e@ == why,
            },
    {
        let mut identifiers = SymbolTable::new();
        let mut instructions: Vec<(u16, Instruction)> = Vec::new();
        let mut current_address: u16 = 0;
        let ghost lines = program@;
        let mut i: usize = 0;
        assert(lines.take(0) =~= Seq::<LineView>::empty());
        assert(instruction_views(instructions@) =~= Seq::<(u16, InstructionView)>::empty());
        while i < program.lines.len()
            invariant
                i <= program.lines.len(),
                lines == line_views(program.lines@),
                layout(lines.take(i as int)) == Ok::<Layout, InstructionErrorView>(
                    Layout {
                        symbols: identifiers@,
                        instructions: instruction_views(instructions@),
                        address: current_address,
                    },
                ),
            decreases program.lines.len() - i,
        {
            proof {
                assert(lines.take(i + 1).drop_last() =~= lines.take(i as int));
                assert(lines.take(i + 1).last() == program.lines[i as int]@);
            }
            let ghost before = instruction_views(instructions@);
            match &program.lines[i] {
                Line::OrgLine { address } => {
                    current_address = *address;
                },
                Line::EquDef { id, value } => {
                    match Self::define(&mut identifiers, id, *value) {
                        Ok(_) => {},
                        Err(e) => {
                            proof {
                                lemma_layout_error_stays(lines, i + 1);
                            }
                            return Err(e);
                        },
                    }
                },
                Line::ProgramLine { label, body } => {
                    if let Some(label) = label {
                        match Self::define(&mut identifiers, &label.0, current_address as i32) {
                            Ok(_) => {},
                            Err(e) => {
                                proof {
                                    lemma_layout_error_stays(lines, i + 1);
                                }
                                return Err(e);
                            },
                        }
                    }
                    match body {
                        None => {},
                        Some(LineBody::CodeLine { operator, operands }) => {
                            let instruction = match Instruction::from_code(
                                *operator,
                                clone_operands(operands),
                            ) {
                                Ok(instruction) => instruction,
                                Err(e) => {
                                    proof {
                                        lemma_layout_error_stays(lines, i + 1);
                                    }
                                    return Err(e);
                                },
                            };
                            let len = instruction.bytes();
                            let ghost size = instruction@.size();
                            instructions.push((current_address, instruction));
                            current_address = ((current_address as u32 + len as u32)
                                % 0x10000) as u16;
                            assert(instruction_views(instructions@) =~= before.push(
                                (instructions[instructions.len() - 1].0, instructions[
                                    instructions.len() - 1].1@),
                            ));
                        },
                        Some(LineBody::ValueDefinition { values }) => {
                            let bytes = bytes_of(values);
                            let len = (bytes.len() % 0x10000) as u16;
                            instructions.push((current_address, Instruction::Bytes(bytes)));
                            current_address = ((current_address as u32 + len as u32)
                                % 0x10000) as u16;
                            assert(instruction_views(instructions@) =~= before.push(
                                (instructions[instructions.len() - 1].0, instructions[
                                    instructions.len() - 1].1@),
                            ));
                        },
                    }
                },
            }
            i += 1;
        }
        assert(lines.take(i as int) =~= lines);
        Ok(Mir { identifiers, instructions })
    }

    /// One data record of the image: the bytes at an address.
    pub fn intel_hex(addr: u16, bytes: Vec<u8>) -> (text: String)
        ensures
            text@ == record(addr, bytes@),
    {
        let count: u8 = (bytes.len() % 256) as u8;
        let addr_high: u8 = (addr / 256) as u8;
        let addr_low: u8 = (addr % 256) as u8;
        let mut result = String::new();
        result.push(':');
        push_hex(&mut result, count);
        push_hex(&mut result, addr_high);
        push_hex(&mut result, addr_low);
        result.push('0');
        result.push('0');
        let ghost head = seq![':'] + hex_byte(count) + hex_byte(addr_high) + hex_byte(addr_low)
            + seq!['0', '0'];
        assert(result@ =~= head);
        let mut sum: u32 = (count as u32 + addr_high as u32 + addr_low as u32) % 256;
        let mut i: usize = 0;
        assert(bytes@.take(0) =~= Seq::<u8>::empty());
        while i < bytes.len()
            invariant
                i <= bytes.len(),
                result@ == head + hex_bytes(bytes@.take(i as int)),
                sum < 256,
                sum as int == (count + addr_high + addr_low + sum_bytes(bytes@.take(i as int)))
                    % 256,
            decreases bytes.len() - i,
        {
            proof {
                assert(bytes@.take(i + 1).drop_last() =~= bytes@.take(i as int));
                assert(bytes@.take(i + 1).last() == bytes[i as int]);
            }
            push_hex(&mut result, bytes[i]);
            sum = (sum + bytes[i] as u32) % 256;
            i += 1;
            assert(result@ =~= head + hex_bytes(bytes@.take(i as int)));
        }
        assert(bytes@.take(i as int) =~= bytes@);
        let check: u8 = ((256 - sum) % 256) as u8;
        push_hex(&mut result, check);
        result.push('\n');
        assert(result@ =~= record(addr, bytes@));
        result
    }

    /// The Intel HEX image: one data record for each placed instruction, in
    /// order, then the end record. The first name that is unknown or does not
    /// fit its place is the error.
    pub fn gen_intel_hex(&self) -> (r: Result<String, InstructionError>)
        ensures
            result_view(r) == image(self@.symbols, self@.instructions),
    {
        let mut result = String::new();
        let ghost placed = instruction_views(self.instructions@);
        let ghost symbols = self.identifiers@;
        let mut i: usize = 0;
        assert(placed.take(0) =~= Seq::<(u16, InstructionView)>::empty());
        while i < self.instructions.len()
            invariant
                i <= self.instructions.len(),
                placed == instruction_views(self.instructions@),
                symbols == self.identifiers@,
                records(symbols, placed.take(i as int)) == Ok::<Seq<char>, InstructionErrorView>(
                    result@,
                ),
            decreases self.instructions.len() - i,
        {
            proof {
                assert(placed.take(i + 1).drop_last() =~= placed.take(i as int));
                assert(placed.take(i + 1).last() == placed[i as int]);
            }
            let addr = self.instructions[i].0;
            let bytes = match self.instructions[i].1.to_bytes(&self.identifiers, addr) {
                Ok(bytes) => bytes,
                Err(e) => {
                    proof {
                        lemma_records_error_stays(symbols, placed, i + 1);
                    }
                    return Err(e);
                },
            };
            let line = Self::intel_hex(addr, bytes);
            result.append(line.as_str());
            i += 1;
        }
        assert(placed.take(i as int) =~= placed);
        result.append(":00000001FF\n");
        proof {
            reveal_strlit(":00000001FF\n");
            assert(":00000001FF\n"@ =~= end_record());
        }
        Ok(result)
    }
}

} // verus!
