//! The program representation that the parser builds, line by line.
use crate::parser::keywords::{Definition, Keyword, Operator, Register};
use crate::parser::lexer::{token_views, Position, Token, TokenView};
use crate::parser::pattern::{first_group, regex_first_group};
use crate::parser::text::{chars_of, lowercase, to_lowercase};
use vstd::prelude::*;

verus! {

/// An operand of an instruction, as written in the source.
#[derive(Debug, PartialEq)]
pub enum Operand {
    Register(Register),
    Direct(u8),
    DirectBit(u8),
    IndirectReg(Register),
    IndirectSum(Register, Register),
    Immediate(i32),
    ImmediateId(String),
}

pub enum OperandView {
    Register(Register),
    Direct(u8),
    DirectBit(u8),
    IndirectReg(Register),
    IndirectSum(Register, Register),
    Immediate(i32),
    ImmediateId(Seq<char>),
}

impl View for Operand {
    type V = OperandView;

    open spec fn view(&self) -> OperandView {
        match *self {
            Operand::Register(r) => OperandView::Register(r),
            Operand::Direct(a) => OperandView::Direct(a),
            Operand::DirectBit(a) => OperandView::DirectBit(a),
            Operand::IndirectReg(r) => OperandView::IndirectReg(r),
            Operand::IndirectSum(r1, r2) => OperandView::IndirectSum(r1, r2),
            Operand::Immediate(n) => OperandView::Immediate(n),
            Operand::ImmediateId(id) => OperandView::ImmediateId(id@),
        }
    }
}

impl Clone for Operand {
    fn clone(&self) -> (r: Operand)
        ensures
            r@ == self@,
    {
        match self {
            Operand::Register(r) => Operand::Register(*r),
            Operand::Direct(a) => Operand::Direct(*a),
            Operand::DirectBit(a) => Operand::DirectBit(*a),
            Operand::IndirectReg(r) => Operand::IndirectReg(*r),
            Operand::IndirectSum(r1, r2) => Operand::IndirectSum(*r1, *r2),
            Operand::Immediate(n) => Operand::Immediate(*n),
            Operand::ImmediateId(id) => Operand::ImmediateId(id.clone()),
        }
    }
}

/// A result with its value and its error each replaced by its view.
pub open spec fn result_view<T: View, E: View>(r: Result<T, E>) -> Result<T::V, E::V> {
    match r {
        Ok(x) => Ok(x@),
        Err(e) => Err(e@),
    }
}

/// The operands of a line, each by its view.
pub open spec fn operand_views(operands: Seq<Operand>) -> Seq<OperandView> {
    Seq::new(operands.len(), |i: int| operands[i]@)
}

/// One item of a data definition.
#[derive(Clone, Debug, PartialEq)]
pub enum Value {
    Byte(u8),
    Word(u16),
    String(String),
}

pub enum ValueView {
    Byte(u8),
    Word(u16),
    String(Seq<char>),
}

impl View for Value {
    type V = ValueView;

    open spec fn view(&self) -> ValueView {
        match *self {
            Value::Byte(b) => ValueView::Byte(b),
            Value::Word(w) => ValueView::Word(w),
            Value::String(s) => ValueView::String(s@),
        }
    }
}

impl ValueView {
    /// The bytes that the item puts into the image: a byte itself, a word
    /// with its low byte first, a string in UTF-8.
    pub open spec fn bytes(self) -> Seq<u8> {
        match self {
            ValueView::Byte(b) => seq![b],
            ValueView::Word(w) => seq![(w % 256) as u8, (w / 256) as u8],
            ValueView::String(s) => vstd::utf8::encode_utf8(s),
        }
    }
}

impl Value {
    /// The bytes of the item, which is left as it is.
    pub fn to_bytes(&self) -> (bytes: Vec<u8>)
        ensures
            bytes@ == self@.bytes(),
    {
        match self {
            Value::Byte(b) => vec![*b],
            Value::Word(w) => vec![(*w % 256) as u8, (*w / 256) as u8],
            Value::String(s) => s.as_str().as_bytes_vec(),
        }
    }

    pub fn into_bytes(self) -> (bytes: Vec<u8>)
        ensures
            bytes@ == self@.bytes(),
    {
        self.to_bytes()
    }
}

/// The values of a data definition, each by its view.
pub open spec fn value_views(values: Seq<Value>) -> Seq<ValueView> {
    Seq::new(values.len(), |i: int| values[i]@)
}

/// The bytes of a run of values, one value after the other.
pub open spec fn values_bytes(values: Seq<ValueView>) -> Seq<u8>
    decreases values.len(),
{
    if values.len() == 0 {
        Seq::empty()
    } else {
        values_bytes(values.drop_last()) + values.last().bytes()
    }
}

/// The name that a line gives to its address.
#[derive(Clone, Debug, PartialEq)]
pub struct Label(pub String);

impl View for Label {
    type V = Seq<char>;

    open spec fn view(&self) -> Seq<char> {
        self.0@
    }
}

/// What a program line holds after its label.
#[derive(Clone, Debug, PartialEq)]
pub enum LineBody {
    CodeLine { operator: Operator, operands: Vec<Operand> },
    ValueDefinition { values: Vec<Value> },
}

pub enum LineBodyView {
    CodeLine { operator: Operator, operands: Seq<OperandView> },
    ValueDefinition { values: Seq<ValueView> },
}

impl View for LineBody {
    type V = LineBodyView;

    open spec fn view(&self) -> LineBodyView {
        match *self {
            LineBody::CodeLine { operator, operands } => LineBodyView::CodeLine {
                operator,
                operands: operand_views(operands@),
            },
            LineBody::ValueDefinition { values } => LineBodyView::ValueDefinition {
                values: value_views(values@),
            },
        }
    }
}

/// One line of a program.
#[derive(Clone, Debug, PartialEq)]
pub enum Line {
    OrgLine { address: u16 },
    EquDef { id: String, value: i32 },
    ProgramLine { label: Option<Label>, body: Option<LineBody> },
}

pub enum LineView {
    OrgLine { address: u16 },
    EquDef { id: Seq<char>, value: i32 },
    ProgramLine { label: Option<Seq<char>>, body: Option<LineBodyView> },
}

impl View for Line {
    type V = LineView;

    open spec fn view(&self) -> LineView {
        match *self {
            Line::OrgLine { address } => LineView::OrgLine { address },
            Line::EquDef { id, value } => LineView::EquDef { id: id@, value },
            Line::ProgramLine { label, body } => LineView::ProgramLine {
                label: match label {
                    Some(l) => Some(l@),
                    None => None,
                },
                body: match body {
                    Some(b) => Some(b@),
                    None => None,
                },
            },
        }
    }
}

/// The lines of a program, each by its view.
pub open spec fn line_views(lines: Seq<Line>) -> Seq<LineView> {
    Seq::new(lines.len(), |i: int| lines[i]@)
}

/// A program: its lines in source order.
#[derive(Clone, Debug, PartialEq)]
pub struct Program {
    pub lines: Vec<Line>,
}

impl View for Program {
    type V = Seq<LineView>;

    open spec fn view(&self) -> Seq<LineView> {
        line_views(self.lines@)
    }
}

/// Why a run of tokens is no program.
#[derive(Clone, Debug, PartialEq)]
pub enum ParseError {
    UnexpectedEof(Token),
    ExpectedNewline(Position),
    ExpectedIdentifier(Position),
    ExpectedOperator(Position),
    ExpectedDirectLocation(Position),
    ExpectedKeyword(Keyword, Position),
    ExpectedNumber(Position),
    ExpectedColon(Position),
    ExpectedComma(Position),
    ExpectedDot(Position),
    ExpectedAt(Position),
    ExpectedPlus(Position),
    ExpectedLeftBracket(Position),
    ExpectedRightBracket(Position),
    InvalidLineBody(Position),
    InvalidMnemonic(String, Position),
    InvalidOperand(Token),
    InvalidRegister(Token),
    InvalidDirectAddr(u8),
    InvalidBitNumber(u8),
    InvalidNumber(String),
    InvalidByte(i32),
    InvalidWord(i32),
    GeneralError,
}

pub enum ParseErrorView {
    UnexpectedEof(TokenView),
    ExpectedNewline(Position),
    ExpectedIdentifier(Position),
    ExpectedOperator(Position),
    ExpectedDirectLocation(Position),
    ExpectedKeyword(Keyword, Position),
    ExpectedNumber(Position),
    ExpectedColon(Position),
    ExpectedComma(Position),
    ExpectedDot(Position),
    ExpectedAt(Position),
    ExpectedPlus(Position),
    ExpectedLeftBracket(Position),
    ExpectedRightBracket(Position),
    InvalidLineBody(Position),
    InvalidMnemonic(Seq<char>, Position),
    InvalidOperand(TokenView),
    InvalidRegister(TokenView),
    InvalidDirectAddr(u8),
    InvalidBitNumber(u8),
    InvalidNumber(Seq<char>),
    InvalidByte(i32),
    InvalidWord(i32),
    GeneralError,
}

impl View for ParseError {
    type V = ParseErrorView;

    open spec fn view(&self) -> ParseErrorView {
        match *self {
            ParseError::UnexpectedEof(t) => ParseErrorView::UnexpectedEof(t@),
            ParseError::ExpectedNewline(p) => ParseErrorView::ExpectedNewline(p),
            ParseError::ExpectedIdentifier(p) => ParseErrorView::ExpectedIdentifier(p),
            ParseError::ExpectedOperator(p) => ParseErrorView::ExpectedOperator(p),
            ParseError::ExpectedDirectLocation(p) => ParseErrorView::ExpectedDirectLocation(p),
            ParseError::ExpectedKeyword(k, p) => ParseErrorView::ExpectedKeyword(k, p),
            ParseError::ExpectedNumber(p) => ParseErrorView::ExpectedNumber(p),
            ParseError::ExpectedColon(p) => ParseErrorView::ExpectedColon(p),
            ParseError::ExpectedComma(p) => ParseErrorView::ExpectedComma(p),
            ParseError::ExpectedDot(p) => ParseErrorView::ExpectedDot(p),
            ParseError::ExpectedAt(p) => ParseErrorView::ExpectedAt(p),
            ParseError::ExpectedPlus(p) => ParseErrorView::ExpectedPlus(p),
            ParseError::ExpectedLeftBracket(p) => ParseErrorView::ExpectedLeftBracket(p),
            ParseError::ExpectedRightBracket(p) => ParseErrorView::ExpectedRightBracket(p),
            ParseError::InvalidLineBody(p) => ParseErrorView::InvalidLineBody(p),
            ParseError::InvalidMnemonic(s, p) => ParseErrorView::InvalidMnemonic(s@, p),
            ParseError::InvalidOperand(t) => ParseErrorView::InvalidOperand(t@),
            ParseError::InvalidRegister(t) => ParseErrorView::InvalidRegister(t@),
            ParseError::InvalidDirectAddr(a) => ParseErrorView::InvalidDirectAddr(a),
            ParseError::InvalidBitNumber(n) => ParseErrorView::InvalidBitNumber(n),
            ParseError::InvalidNumber(s) => ParseErrorView::InvalidNumber(s@),
            ParseError::InvalidByte(n) => ParseErrorView::InvalidByte(n),
            ParseError::InvalidWord(n) => ParseErrorView::InvalidWord(n),
            ParseError::GeneralError => ParseErrorView::GeneralError,
        }
    }
}

/// What was read from the tokens, and the index of the token after it.
pub struct Parsed<T> {
    pub value: T,
    pub next: int,
}

/// The token at an index. Past the end, the error holds the last token.
pub open spec fn token_at(ts: Seq<TokenView>, at: int) -> Result<TokenView, ParseErrorView> {
    if 0 <= at < ts.len() {
        Ok(ts[at])
    } else {
        Err(ParseErrorView::UnexpectedEof(ts.last()))
    }
}

pub open spec fn keyword_at(ts: Seq<TokenView>, at: int, keyword: Keyword) -> Result<
    int,
    ParseErrorView,
> {
    match token_at(ts, at) {
        Err(e) => Err(e),
        Ok(t) => if t == TokenView::Keyword(keyword, t.position()) {
            Ok(at + 1)
        } else {
            Err(ParseErrorView::ExpectedKeyword(keyword, t.position()))
        },
    }
}

pub open spec fn identifier_at(ts: Seq<TokenView>, at: int) -> Result<
    Parsed<Seq<char>>,
    ParseErrorView,
> {
    match token_at(ts, at) {
        Err(e) => Err(e),
        Ok(TokenView::Identifier(s, _)) => Ok(Parsed { value: s, next: at + 1 }),
        Ok(t) => Err(ParseErrorView::ExpectedIdentifier(t.position())),
    }
}

pub open spec fn operator_at(ts: Seq<TokenView>, at: int) -> Result<
    Parsed<Operator>,
    ParseErrorView,
> {
    match token_at(ts, at) {
        Err(e) => Err(e),
        Ok(TokenView::Operator(operator, _)) => Ok(Parsed { value: operator, next: at + 1 }),
        Ok(t) => Err(ParseErrorView::ExpectedOperator(t.position())),
    }
}

/// A special function register, as the direct address that it names.
pub open spec fn direct_id_at(ts: Seq<TokenView>, at: int) -> Result<
    Parsed<OperandView>,
    ParseErrorView,
> {
    match token_at(ts, at) {
        Err(e) => Err(e),
        Ok(TokenView::DirectLocation(location, _)) => Ok(
            Parsed { value: OperandView::Direct(location.addr()), next: at + 1 },
        ),
        Ok(t) => Err(ParseErrorView::ExpectedDirectLocation(t.position())),
    }
}

/// The end of a line: a newline, or the end of the tokens.
pub open spec fn newline_at(ts: Seq<TokenView>, at: int) -> Result<int, ParseErrorView> {
    if at >= ts.len() {
        Ok(at)
    } else if ts[at] is Newline {
        Ok(at + 1)
    } else {
        Err(ParseErrorView::ExpectedNewline(ts[at].position()))
    }
}

pub open spec fn comma_at(ts: Seq<TokenView>, at: int) -> Result<int, ParseErrorView> {
    match token_at(ts, at) {
        Err(e) => Err(e),
        Ok(t) => if t is Comma {
            Ok(at + 1)
        } else {
            Err(ParseErrorView::ExpectedComma(t.position()))
        },
    }
}

pub open spec fn dot_at(ts: Seq<TokenView>, at: int) -> Result<int, ParseErrorView> {
    match token_at(ts, at) {
        Err(e) => Err(e),
        Ok(t) => if t is Dot {
            Ok(at + 1)
        } else {
            Err(ParseErrorView::ExpectedDot(t.position()))
        },
    }
}

pub open spec fn at_sign_at(ts: Seq<TokenView>, at: int) -> Result<int, ParseErrorView> {
    match token_at(ts, at) {
        Err(e) => Err(e),
        Ok(t) => if t is At {
            Ok(at + 1)
        } else {
            Err(ParseErrorView::ExpectedAt(t.position()))
        },
    }
}

pub open spec fn plus_at(ts: Seq<TokenView>, at: int) -> Result<int, ParseErrorView> {
    match token_at(ts, at) {
        Err(e) => Err(e),
        Ok(t) => if t is Plus {
            Ok(at + 1)
        } else {
            Err(ParseErrorView::ExpectedPlus(t.position()))
        },
    }
}

pub open spec fn left_bracket_at(ts: Seq<TokenView>, at: int) -> Result<int, ParseErrorView> {
    match token_at(ts, at) {
        Err(e) => Err(e),
        Ok(t) => if t is LeftBracket {
            Ok(at + 1)
        } else {
            Err(ParseErrorView::ExpectedLeftBracket(t.position()))
        },
    }
}

pub open spec fn right_bracket_at(ts: Seq<TokenView>, at: int) -> Result<int, ParseErrorView> {
    match token_at(ts, at) {
        Err(e) => Err(e),
        Ok(t) => if t is RightBracket {
            Ok(at + 1)
        } else {
            Err(ParseErrorView::ExpectedRightBracket(t.position()))
        },
    }
}

/// The expression that a lower-case binary number matches; group 1 is the
/// number without its mark.
pub open spec fn binary_pattern() -> Seq<char> {
    "^(-?[01]+)b$"@
}

/// The same for an octal number.
pub open spec fn octal_pattern() -> Seq<char> {
    "^(-?[0-7]+)o$"@
}

/// The same for a decimal number, which has no mark.
pub open spec fn decimal_pattern() -> Seq<char> {
    "^(-?[0-9]+)$"@
}

/// The same for a hexadecimal number, which begins with a decimal digit.
pub open spec fn hexadecimal_pattern() -> Seq<char> {
    "^(-?[0-9][0-9a-f]*)h$"@
}

/// The number that a digit stands for in a base: `0` to `9`, then the
/// letters from `a` in either case; none where it does not exist in the base.
pub open spec fn digit_in(c: char, base: int) -> Option<int> {
    let d = if '0' <= c && c <= '9' {
        (c as u8) - 48
    } else if 'a' <= c && c <= 'z' {
        (c as u8) - 87
    } else if 'A' <= c && c <= 'Z' {
        (c as u8) - 55
    } else {
        base
    };
    if d < base {
        Some(d)
    } else {
        None
    }
}

pub open spec fn digits_valid(digits: Seq<char>, base: int) -> bool {
    forall|i: int| 0 <= i < digits.len() ==> (#[trigger] digit_in(digits[i], base)) is Some
}

/// The number that a run of digits stands for in a base; no digit is 0.
pub open spec fn magnitude(digits: Seq<char>, base: int) -> int
    decreases digits.len(),
{
    if digits.len() == 0 {
        0
    } else {
        magnitude(digits.drop_last(), base) * base + match digit_in(digits.last(), base) {
            Some(d) => d,
            None => 0,
        }
    }
}

/// The value of a number without its mark: an optional minus sign and
/// digits of the base. None where a digit is not of the base or the value
/// does not fit in 32 bits.
pub open spec fn literal_value(text: Seq<char>, base: int) -> Option<i32> {
    let negative = text.len() > 0 && text[0] == '-';
    let digits = if negative {
        text.skip(1)
    } else {
        text
    };
    let value = if negative {
        -magnitude(digits, base)
    } else {
        magnitude(digits, base)
    };
    if digits_valid(digits, base) && i32::MIN <= value <= i32::MAX {
        Some(value as i32)
    } else {
        None
    }
}

/// The value of a captured number in a base, or the lower-case text as the
/// error.
pub open spec fn literal(group: Seq<char>, base: int, word: Seq<char>) -> Result<
    i32,
    ParseErrorView,
> {
    match literal_value(group, base) {
        Some(value) => Ok(value),
        None => Err(ParseErrorView::InvalidNumber(word)),
    }
}

/// The value of a lower-case number, given what each of the four
/// expressions captured from it. Binary is tried first, then octal, decimal
/// and hexadecimal.
pub open spec fn number_from(
    binary: Option<Seq<char>>,
    octal: Option<Seq<char>>,
    decimal: Option<Seq<char>>,
    hexadecimal: Option<Seq<char>>,
    word: Seq<char>,
) -> Result<i32, ParseErrorView> {
    match binary {
        Some(group) => literal(group, 2, word),
        None => match octal {
            Some(group) => literal(group, 8, word),
            None => match decimal {
                Some(group) => literal(group, 10, word),
                None => match hexadecimal {
                    Some(group) => literal(group, 16, word),
                    None => Err(ParseErrorView::InvalidNumber(word)),
                },
            },
        },
    }
}

/// The value of a number as written.
pub open spec fn number_value(text: Seq<char>) -> Result<i32, ParseErrorView> {
    let word = lowercase(text);
    number_from(
        regex_first_group(binary_pattern(), word),
        regex_first_group(octal_pattern(), word),
        regex_first_group(decimal_pattern(), word),
        regex_first_group(hexadecimal_pattern(), word),
        word,
    )
}

pub open spec fn number_at(ts: Seq<TokenView>, at: int) -> Result<Parsed<i32>, ParseErrorView> {
    match token_at(ts, at) {
        Err(e) => Err(e),
        Ok(TokenView::Number(text, _)) => match number_value(text) {
            Err(e) => Err(e),
            Ok(value) => Ok(Parsed { value, next: at + 1 }),
        },
        Ok(t) => Err(ParseErrorView::ExpectedNumber(t.position())),
    }
}

/// A number between 0 and 255.
pub open spec fn byte_of(n: i32) -> Result<u8, ParseErrorView> {
    if 0 <= n && n <= 255 {
        Ok(n as u8)
    } else {
        Err(ParseErrorView::InvalidByte(n))
    }
}

/// A number between 0 and 65535.
pub open spec fn word_of(n: i32) -> Result<u16, ParseErrorView> {
    if 0 <= n && n <= 65535 {
        Ok(n as u16)
    } else {
        Err(ParseErrorView::InvalidWord(n))
    }
}

/// The address of bit `bit` of a direct address. The bytes 0x20 to 0x2F
/// hold the bits 0x00 to 0x7F; a register from 0x80 on holds the bits that
/// follow its own address, as far as they fit in a byte.
pub open spec fn bit_address(direct: OperandView, bit: u8) -> Result<OperandView, ParseErrorView> {
    if bit > 7 {
        Err(ParseErrorView::InvalidBitNumber(bit))
    } else {
        match direct {
            OperandView::Direct(addr) => if 0x20 <= addr && addr < 0x30 {
                Ok(OperandView::DirectBit(((addr - 0x20) * 8 + bit) as u8))
            } else if addr >= 0x80 && addr + bit <= 0xFF {
                Ok(OperandView::DirectBit((addr + bit) as u8))
            } else {
                Err(ParseErrorView::InvalidDirectAddr(addr))
            },
            _ => Err(ParseErrorView::GeneralError),
        }
    }
}

pub open spec fn register_at(ts: Seq<TokenView>, at: int) -> Result<
    Parsed<Register>,
    ParseErrorView,
> {
    match token_at(ts, at) {
        Err(e) => Err(e),
        Ok(TokenView::Identifier(name, p)) => match Register::named(name) {
            Some(register) => Ok(Parsed { value: register, next: at + 1 }),
            None => Err(ParseErrorView::InvalidRegister(TokenView::Identifier(name, p))),
        },
        Ok(t) => Err(ParseErrorView::ExpectedIdentifier(t.position())),
    }
}

/// `@` register `+` register.
pub open spec fn indirect_sum_at(ts: Seq<TokenView>, at: int) -> Result<
    Parsed<OperandView>,
    ParseErrorView,
> {
    match at_sign_at(ts, at) {
        Err(e) => Err(e),
        Ok(p1) => match register_at(ts, p1) {
            Err(e) => Err(e),
            Ok(first) => match plus_at(ts, first.next) {
                Err(e) => Err(e),
                Ok(p2) => match register_at(ts, p2) {
                    Err(e) => Err(e),
                    Ok(second) => Ok(
                        Parsed {
                            value: OperandView::IndirectSum(first.value, second.value),
                            next: second.next,
                        },
                    ),
                },
            },
        },
    }
}

/// `@` register.
pub open spec fn indirect_at(ts: Seq<TokenView>, at: int) -> Result<
    Parsed<OperandView>,
    ParseErrorView,
> {
    match at_sign_at(ts, at) {
        Err(e) => Err(e),
        Ok(p1) => match register_at(ts, p1) {
            Err(e) => Err(e),
            Ok(register) => Ok(
                Parsed { value: OperandView::IndirectReg(register.value), next: register.next },
            ),
        },
    }
}

/// A bare identifier or a bare number.
pub open spec fn immediate_at(ts: Seq<TokenView>, at: int) -> Result<
    Parsed<OperandView>,
    ParseErrorView,
> {
    match token_at(ts, at) {
        Err(e) => Err(e),
        Ok(TokenView::Identifier(name, _)) => Ok(
            Parsed { value: OperandView::ImmediateId(name), next: at + 1 },
        ),
        Ok(TokenView::Number(_, _)) => match number_at(ts, at) {
            Err(e) => Err(e),
            Ok(n) => Ok(Parsed { value: OperandView::Immediate(n.value), next: n.next }),
        },
        Ok(_) => Err(ParseErrorView::GeneralError),
    }
}

/// `[` number `]`, a direct address.
pub open spec fn direct_number_at(ts: Seq<TokenView>, at: int) -> Result<
    Parsed<OperandView>,
    ParseErrorView,
> {
    match left_bracket_at(ts, at) {
        Err(e) => Err(e),
        Ok(p1) => match number_at(ts, p1) {
            Err(e) => Err(e),
            Ok(n) => match right_bracket_at(ts, n.next) {
                Err(e) => Err(e),
                Ok(p2) => match byte_of(n.value) {
                    Err(e) => Err(e),
                    Ok(addr) => Ok(Parsed { value: OperandView::Direct(addr), next: p2 }),
                },
            },
        },
    }
}

/// `.` number, a bit number.
pub open spec fn bit_at(ts: Seq<TokenView>, at: int) -> Result<Parsed<u8>, ParseErrorView> {
    match dot_at(ts, at) {
        Err(e) => Err(e),
        Ok(p1) => match number_at(ts, p1) {
            Err(e) => Err(e),
            Ok(n) => match byte_of(n.value) {
                Err(e) => Err(e),
                Ok(bit) => Ok(Parsed { value: bit, next: n.next }),
            },
        },
    }
}

/// A direct address in brackets or by the name of a register, and after it
/// an optional bit number, which makes it a bit address.
pub open spec fn direct_at(ts: Seq<TokenView>, at: int) -> Result<
    Parsed<OperandView>,
    ParseErrorView,
> {
    let base = match direct_number_at(ts, at) {
        Ok(direct) => Ok(direct),
        Err(_) => direct_id_at(ts, at),
    };
    match base {
        Err(e) => Err(e),
        Ok(direct) => match bit_at(ts, direct.next) {
            Err(_) => Ok(direct),
            Ok(bit) => match bit_address(direct.value, bit.value) {
                Err(e) => Err(e),
                Ok(operand) => Ok(Parsed { value: operand, next: bit.next }),
            },
        },
    }
}

/// An operand: the first of indexed, indirect, immediate, register and
/// direct that can be read.
pub open spec fn operand_at(ts: Seq<TokenView>, at: int) -> Result<
    Parsed<OperandView>,
    ParseErrorView,
> {
    if indirect_sum_at(ts, at) is Ok {
        indirect_sum_at(ts, at)
    } else if indirect_at(ts, at) is Ok {
        indirect_at(ts, at)
    } else if immediate_at(ts, at) is Ok {
        immediate_at(ts, at)
    } else if register_at(ts, at) is Ok {
        match register_at(ts, at) {
            Ok(register) => Ok(
                Parsed { value: OperandView::Register(register.value), next: register.next },
            ),
            Err(e) => Err(e),
        }
    } else if direct_at(ts, at) is Ok {
        direct_at(ts, at)
    } else {
        match token_at(ts, at) {
            Err(e) => Err(e),
            Ok(t) => Err(ParseErrorView::InvalidOperand(t)),
        }
    }
}

/// The operands after the first: each after a comma, as long as a comma
/// comes.
pub open spec fn operands_from(ts: Seq<TokenView>, at: int, found: Seq<OperandView>) -> Result<
    Parsed<Seq<OperandView>>,
    ParseErrorView,
>
    decreases ts.len() - at,
{
    match comma_at(ts, at) {
        Err(_) => Ok(Parsed { value: found, next: at }),
        Ok(p1) => match operand_at(ts, p1) {
            Err(e) => Err(e),
            Ok(operand) => if at < operand.next <= ts.len() {
                operands_from(ts, operand.next, found.push(operand.value))
            } else {
                Err(ParseErrorView::GeneralError)
            },
        },
    }
}

/// A mnemonic and its operands, which may be none.
pub open spec fn code_line_at(ts: Seq<TokenView>, at: int) -> Result<
    Parsed<LineBodyView>,
    ParseErrorView,
> {
    match operator_at(ts, at) {
        Err(e) => Err(e),
        Ok(operator) => match operand_at(ts, operator.next) {
            Err(_) => Ok(
                Parsed {
                    value: LineBodyView::CodeLine {
                        operator: operator.value,
                        operands: Seq::empty(),
                    },
                    next: operator.next,
                },
            ),
            Ok(first) => match operands_from(ts, first.next, seq![first.value]) {
                Err(e) => Err(e),
                Ok(all) => Ok(
                    Parsed {
                        value: LineBodyView::CodeLine {
                            operator: operator.value,
                            operands: all.value,
                        },
                        next: all.next,
                    },
                ),
            },
        },
    }
}

pub open spec fn definition_at(ts: Seq<TokenView>, at: int) -> Result<
    Parsed<Definition>,
    ParseErrorView,
> {
    match token_at(ts, at) {
        Err(e) => Err(e),
        Ok(TokenView::Identifier(name, p)) => match Definition::named(lowercase(name)) {
            Some(definition) => Ok(Parsed { value: definition, next: at + 1 }),
            None => Err(ParseErrorView::InvalidMnemonic(name, p)),
        },
        Ok(t) => Err(ParseErrorView::ExpectedIdentifier(t.position())),
    }
}

/// A string, or a number that is a byte.
pub open spec fn byte_value_at(ts: Seq<TokenView>, at: int) -> Result<
    Parsed<ValueView>,
    ParseErrorView,
> {
    match token_at(ts, at) {
        Err(e) => Err(e),
        Ok(TokenView::String(s, _)) => Ok(Parsed { value: ValueView::String(s), next: at + 1 }),
        Ok(_) => match number_at(ts, at) {
            Err(e) => Err(e),
            Ok(n) => match byte_of(n.value) {
                Err(e) => Err(e),
                Ok(b) => Ok(Parsed { value: ValueView::Byte(b), next: n.next }),
            },
        },
    }
}

/// A number that is a word.
pub open spec fn word_value_at(ts: Seq<TokenView>, at: int) -> Result<
    Parsed<ValueView>,
    ParseErrorView,
> {
    match number_at(ts, at) {
        Err(e) => Err(e),
        Ok(n) => match word_of(n.value) {
            Err(e) => Err(e),
            Ok(w) => Ok(Parsed { value: ValueView::Word(w), next: n.next }),
        },
    }
}

/// The values of a definition after the first: each after a comma, as long
/// as a comma comes.
pub open spec fn values_from(
    ts: Seq<TokenView>,
    at: int,
    found: Seq<ValueView>,
    definition: Definition,
) -> Result<Parsed<Seq<ValueView>>, ParseErrorView>
    decreases ts.len() - at,
{
    match comma_at(ts, at) {
        Err(_) => Ok(Parsed { value: found, next: at }),
        Ok(p1) => match value_at(ts, p1, definition) {
            Err(e) => Err(e),
            Ok(value) => if at < value.next <= ts.len() {
                values_from(ts, value.next, found.push(value.value), definition)
            } else {
                Err(ParseErrorView::GeneralError)
            },
        },
    }
}

/// One value of a definition of bytes or of words.
pub open spec fn value_at(ts: Seq<TokenView>, at: int, definition: Definition) -> Result<
    Parsed<ValueView>,
    ParseErrorView,
> {
    match definition {
        Definition::DefineByte => byte_value_at(ts, at),
        Definition::DefineWord => word_value_at(ts, at),
    }
}

/// The values of a definition: one at least, with commas between them.
pub open spec fn values_at(ts: Seq<TokenView>, at: int, definition: Definition) -> Result<
    Parsed<Seq<ValueView>>,
    ParseErrorView,
> {
    match value_at(ts, at, definition) {
        Err(e) => Err(e),
        Ok(first) => values_from(ts, first.next, seq![first.value], definition),
    }
}

/// `db` or `dw` and its values.
pub open spec fn value_def_at(ts: Seq<TokenView>, at: int) -> Result<
    Parsed<LineBodyView>,
    ParseErrorView,
> {
    match definition_at(ts, at) {
        Err(e) => Err(e),
        Ok(definition) => match values_at(ts, definition.next, definition.value) {
            Err(e) => Err(e),
            Ok(values) => Ok(
                Parsed {
                    value: LineBodyView::ValueDefinition { values: values.value },
                    next: values.next,
                },
            ),
        },
    }
}

/// An instruction, else a data definition.
pub open spec fn line_body_at(ts: Seq<TokenView>, at: int) -> Result<
    Parsed<LineBodyView>,
    ParseErrorView,
> {
    if code_line_at(ts, at) is Ok {
        code_line_at(ts, at)
    } else if value_def_at(ts, at) is Ok {
        value_def_at(ts, at)
    } else {
        match token_at(ts, at) {
            Err(e) => Err(e),
            Ok(t) => Err(ParseErrorView::InvalidLineBody(t.position())),
        }
    }
}

/// An identifier and a colon.
pub open spec fn label_at(ts: Seq<TokenView>, at: int) -> Result<
    Parsed<Seq<char>>,
    ParseErrorView,
> {
    match token_at(ts, at) {
        Err(e) => Err(e),
        Ok(TokenView::Identifier(name, _)) => match token_at(ts, at + 1) {
            Err(e) => Err(e),
            Ok(t) => if t is Colon {
                Ok(Parsed { value: name, next: at + 2 })
            } else {
                Err(ParseErrorView::ExpectedColon(t.position()))
            },
        },
        Ok(t) => Err(ParseErrorView::ExpectedIdentifier(t.position())),
    }
}

/// The address that `ORG` sets: the low 16 bits of its number.
pub open spec fn origin(n: i32) -> u16 {
    (n as int % 0x10000) as u16
}

/// `ORG` number, to the end of the line.
pub open spec fn org_line_at(ts: Seq<TokenView>, at: int) -> Result<
    Parsed<LineView>,
    ParseErrorView,
> {
    match keyword_at(ts, at, Keyword::Org) {
        Err(e) => Err(e),
        Ok(p1) => match number_at(ts, p1) {
            Err(e) => Err(e),
            Ok(n) => match newline_at(ts, n.next) {
                Err(e) => Err(e),
                Ok(p2) => Ok(
                    Parsed { value: LineView::OrgLine { address: origin(n.value) }, next: p2 },
                ),
            },
        },
    }
}

/// Identifier `EQU` number, to the end of the line.
pub open spec fn equ_def_at(ts: Seq<TokenView>, at: int) -> Result<
    Parsed<LineView>,
    ParseErrorView,
> {
    match identifier_at(ts, at) {
        Err(e) => Err(e),
        Ok(id) => match keyword_at(ts, id.next, Keyword::Equ) {
            Err(e) => Err(e),
            Ok(p1) => match number_at(ts, p1) {
                Err(e) => Err(e),
                Ok(n) => match newline_at(ts, n.next) {
                    Err(e) => Err(e),
                    Ok(p2) => Ok(
                        Parsed {
                            value: LineView::EquDef { id: id.value, value: n.value },
                            next: p2,
                        },
                    ),
                },
            },
        },
    }
}

/// An optional label, an optional body, and the end of the line.
pub open spec fn program_line_at(ts: Seq<TokenView>, at: int) -> Result<
    Parsed<LineView>,
    ParseErrorView,
> {
    let label = match label_at(ts, at) {
        Ok(l) => Parsed { value: Some(l.value), next: l.next },
        Err(_) => Parsed { value: None, next: at },
    };
    let body = match line_body_at(ts, label.next) {
        Ok(b) => Parsed { value: Some(b.value), next: b.next },
        Err(_) => Parsed { value: None, next: label.next },
    };
    match newline_at(ts, body.next) {
        Err(e) => Err(e),
        Ok(p) => Ok(
            Parsed {
                value: LineView::ProgramLine { label: label.value, body: body.value },
                next: p,
            },
        ),
    }
}

/// A line: the first of an `ORG` line, an `EQU` line and a program line
/// that can be read.
pub open spec fn line_at(ts: Seq<TokenView>, at: int) -> Result<Parsed<LineView>, ParseErrorView> {
    if org_line_at(ts, at) is Ok {
        org_line_at(ts, at)
    } else if equ_def_at(ts, at) is Ok {
        equ_def_at(ts, at)
    } else {
        program_line_at(ts, at)
    }
}

/// The lines from a token on to the end of the tokens, after those already
/// found.
pub open spec fn lines_from(ts: Seq<TokenView>, at: int, found: Seq<LineView>) -> Result<
    Seq<LineView>,
    ParseErrorView,
>
    decreases ts.len() - at,
{
    if at >= ts.len() {
        Ok(found)
    } else {
        match line_at(ts, at) {
            Err(e) => Err(e),
            Ok(line) => if at < line.next <= ts.len() {
                lines_from(ts, line.next, found.push(line.value))
            } else {
                Err(ParseErrorView::GeneralError)
            },
        }
    }
}

/// The program that a run of tokens stands for: its lines, or the error of
/// the first line that cannot be read.
pub open spec fn program_of(ts: Seq<TokenView>) -> Result<Seq<LineView>, ParseErrorView> {
    lines_from(ts, 0, Seq::empty())
}

/// Bit `b` of a byte `a` of the bit-addressable memory, 0x20 to 0x2F, has
/// the address `(a - 0x20) * 8 + b`.
pub proof fn lemma_bit_address_of_memory(a: u8, b: u8)
    requires
        0x20 <= a < 0x30,
        b <= 7,
    ensures
        bit_address(OperandView::Direct(a), b) == Ok::<OperandView, ParseErrorView>(
            OperandView::DirectBit(((a - 0x20) * 8 + b) as u8),
        ),
        (a - 0x20) * 8 + b <= 0x7F,
{
}

/// Written as `[a].b`, with numbers that stand for such a byte and such a
/// bit, the operand is that bit address.
pub proof fn lemma_direct_bit_operand(ts: Seq<TokenView>, at: int, a: u8, b: u8)
    requires
        0x20 <= a < 0x30,
        b <= 7,
        0 <= at,
        at + 5 <= ts.len(),
        ts[at] is LeftBracket,
        ts[at + 1] matches TokenView::Number(text, _) && number_value(text) == Ok::<
            i32,
            ParseErrorView,
        >(a as i32),
        ts[at + 2] is RightBracket,
        ts[at + 3] is Dot,
        ts[at + 4] matches TokenView::Number(text, _) && number_value(text) == Ok::<
            i32,
            ParseErrorView,
        >(b as i32),
    ensures
        operand_at(ts, at) == Ok::<Parsed<OperandView>, ParseErrorView>(
            Parsed { value: OperandView::DirectBit(((a - 0x20) * 8 + b) as u8), next: at + 5 },
        ),
{
    assert(direct_number_at(ts, at) == Ok::<Parsed<OperandView>, ParseErrorView>(
        Parsed { value: OperandView::Direct(a), next: at + 3 },
    ));
    assert(bit_at(ts, at + 3) == Ok::<Parsed<u8>, ParseErrorView>(
        Parsed { value: b, next: at + 5 },
    ));
}

/// A place in a run of tokens. The parser moves through copies of it, so a
/// rule that fails leaves no trace.
#[derive(Clone, Copy, Debug)]
pub struct ParserState<'a> {
    tokens: &'a Vec<Token>,
    position: usize,
}

/// What a rule read, and the place after it.
pub struct ParseResult<'a, T> {
    pub state: ParserState<'a>,
    pub result: T,
}

/// The outcome of a rule that only moves on.
pub open spec fn moved<'a>(r: Result<ParserState<'a>, ParseError>) -> Result<int, ParseErrorView> {
    match r {
        Ok(state) => Ok(state.at()),
        Err(e) => Err(e@),
    }
}

/// The outcome of a rule that reads a value.
pub open spec fn produced<'a, T: View>(r: Result<ParseResult<'a, T>, ParseError>) -> Result<
    Parsed<T::V>,
    ParseErrorView,
> {
    match r {
        Ok(p) => Ok(Parsed { value: p.result@, next: p.state.at() }),
        Err(e) => Err(e@),
    }
}

/// The outcome of a rule that reads a run of values.
pub open spec fn produced_values<'a>(r: Result<ParseResult<'a, Vec<Value>>, ParseError>) -> Result<
    Parsed<Seq<ValueView>>,
    ParseErrorView,
> {
    match r {
        Ok(p) => Ok(Parsed { value: value_views(p.result@), next: p.state.at() }),
        Err(e) => Err(e@),
    }
}

/// A rule that succeeds stays within the same tokens and never moves back.
pub open spec fn kept<'a, T>(
    from: ParserState<'a>,
    r: Result<ParseResult<'a, T>, ParseError>,
) -> bool {
    r matches Ok(p) ==> p.state.follows(from)
}

/// The view of an optional string.
pub open spec fn text_of(s: Option<String>) -> Option<Seq<char>> {
    match s {
        Some(s) => Some(s@),
        None => None,
    }
}

fn digit(c: char, base: u8) -> (r: Option<u8>)
    ensures
        match r {
            Some(d) => digit_in(c, base as int) == Some(d as int),
            None => digit_in(c, base as int).is_none(),
        },
{
    let d: u8 = if c >= '0' && c <= '9' {
        (c as u8) - 48
    } else if c >= 'a' && c <= 'z' {
        (c as u8) - 87
    } else if c >= 'A' && c <= 'Z' {
        (c as u8) - 55
    } else {
        return None;
    };
    if d < base {
        Some(d)
    } else {
        None
    }
}

/// More digits never make a number smaller.
pub proof fn lemma_magnitude_grows(digits: Seq<char>, base: int, k: int)
    requires
        base >= 1,
        0 <= k <= digits.len(),
    ensures
        0 <= magnitude(digits.take(k), base) <= magnitude(digits, base),
    decreases digits.len() - k,
{
    lemma_magnitude_not_negative(digits.take(k), base);
    if k < digits.len() {
        assert(digits.take(k + 1).drop_last() =~= digits.take(k));
        lemma_magnitude_grows(digits, base, k + 1);
        let m = magnitude(digits.take(k), base);
        assert(m <= m * base) by (nonlinear_arith)
            requires
                m >= 0,
                base >= 1,
        ;
    } else {
        assert(digits.take(k) =~= digits);
    }
}

pub proof fn lemma_magnitude_not_negative(digits: Seq<char>, base: int)
    requires
        base >= 1,
    ensures
        magnitude(digits, base) >= 0,
    decreases digits.len(),
{
    if digits.len() > 0 {
        lemma_magnitude_not_negative(digits.drop_last(), base);
        let m = magnitude(digits.drop_last(), base);
        assert(m * base >= 0) by (nonlinear_arith)
            requires
                m >= 0,
                base >= 1,
        ;
    }
}

impl<'a> ParserState<'a> {
    /// The tokens, each by its view.
    pub closed spec fn input(&self) -> Seq<TokenView> {
        token_views(self.tokens@)
    }

    /// The index of the next token.
    pub closed spec fn at(&self) -> int {
        self.position as int
    }

    /// There is a token, the place is not past the end, and every token
    /// that names a special function register names one that exists.
    pub open spec fn wf(&self) -> bool {
        &&& self.input().len() > 0
        &&& 0 <= self.at() <= self.input().len()
        &&& forall|i: int| 0 <= i < self.input().len() ==> (#[trigger] self.input()[i]).wf()
    }

    /// A place in the same tokens, not before `from` and not past the end.
    pub open spec fn follows(&self, from: ParserState<'a>) -> bool {
        &&& self.input() == from.input()
        &&& from.at() <= self.at() <= self.input().len()
    }

    pub fn new<'b>(tokens: &'b Vec<Token>) -> (state: ParserState<'b>)
        ensures
            state.input() == token_views(tokens@),
            state.at() == 0,
    {
        ParserState { tokens: tokens, position: 0 }
    }

    /// Reads a whole program.
    pub fn parse(tokens: Vec<Token>) -> (r: Result<Program, ParseError>)
        requires
            forall|i: int| 0 <= i < tokens.len() ==> (#[trigger] tokens[i]@).wf(),
        ensures
            result_view(r) == program_of(token_views(tokens@)),
    {
        let parser = ParserState::new(&tokens);
        if tokens.len() == 0 {
            let lines: Vec<Line> = Vec::new();
            assert(line_views(lines@) =~= Seq::<LineView>::empty());
            return Ok(Program { lines: lines });
        }
        let result = parser.parse_program()?;
        Ok(result.result)
    }

    fn current_token(&self) -> (r: Result<Token, ParseError>)
        requires
            self.wf(),
        ensures
            result_view(r) == token_at(self.input(), self.at()),
            r is Ok <==> self.at() < self.input().len(),
    {
        if self.position < self.tokens.len() {
            Ok(self.tokens[self.position].clone())
        } else {
            Err(ParseError::UnexpectedEof(self.tokens[self.tokens.len() - 1].clone()))
        }
    }

    fn advanced(self) -> (state: ParserState<'a>)
        requires
            self.wf(),
            self.at() < self.input().len(),
        ensures
            state.input() == self.input(),
            state.at() == self.at() + 1,
            state.wf(),
            state.follows(self),
    {
        assert(self.input().len() == self.tokens.len());
        ParserState { tokens: self.tokens, position: self.position + 1 }
    }

    pub fn expect_keyword(self, kw: Keyword) -> (r: Result<ParserState<'a>, ParseError>)
        requires
            self.wf(),
        ensures
            moved(r) == keyword_at(self.input(), self.at(), kw),
            r matches Ok(state) ==> state.follows(self),
    {
        let cur_tok = self.current_token()?;
        if let Token::Keyword(kw2, _) = cur_tok {
            if kw2 == kw {
                Ok(self.advanced())
            } else {
                Err(ParseError::ExpectedKeyword(kw, cur_tok.get_position()))
            }
        } else {
            Err(ParseError::ExpectedKeyword(kw, cur_tok.get_position()))
        }
    }

    pub fn expect_identifier(self) -> (r: Result<(ParserState<'a>, String), ParseError>)
        requires
            self.wf(),
        ensures
            match r {
                Ok((state, id)) => identifier_at(self.input(), self.at()) == Ok::<
                    Parsed<Seq<char>>,
                    ParseErrorView,
                >(Parsed { value: id@, next: state.at() }) && state.follows(self),
                Err(e) => identifier_at(self.input(), self.at()) == Err::<
                    Parsed<Seq<char>>,
                    ParseErrorView,
                >(e@),
            },
    {
        let cur_tok = self.current_token()?;
        if let Token::Identifier(s, _) = cur_tok {
            Ok((self.advanced(), s))
        } else {
            Err(ParseError::ExpectedIdentifier(cur_tok.get_position()))
        }
    }

    pub fn expect_operator(self) -> (r: Result<(ParserState<'a>, Operator), ParseError>)
        requires
            self.wf(),
        ensures
            match r {
                Ok((state, operator)) => operator_at(self.input(), self.at()) == Ok::<
                    Parsed<Operator>,
                    ParseErrorView,
                >(Parsed { value: operator, next: state.at() }) && state.follows(self),
                Err(e) => operator_at(self.input(), self.at()) == Err::<
                    Parsed<Operator>,
                    ParseErrorView,
                >(e@),
            },
    {
        let cur_tok = self.current_token()?;
        if let Token::Operator(oper, _) = cur_tok {
            Ok((self.advanced(), oper))
        } else {
            Err(ParseError::ExpectedOperator(cur_tok.get_position()))
        }
    }

    pub fn expect_direct_id(self) -> (r: Result<ParseResult<'a, Operand>, ParseError>)
        requires
            self.wf(),
        ensures
            produced(r) == direct_id_at(self.input(), self.at()),
            kept(self, r),
    {
        let cur_tok = self.current_token()?;
        if let Token::DirectLocation(dir, _) = cur_tok {
            Ok(ParseResult { state: self.advanced(), result: Operand::Direct(dir.get_addr()) })
        } else {
            Err(ParseError::ExpectedDirectLocation(cur_tok.get_position()))
        }
    }

    pub fn expect_newline(self) -> (r: Result<ParserState<'a>, ParseError>)
        requires
            self.wf(),
        ensures
            moved(r) == newline_at(self.input(), self.at()),
            r matches Ok(state) ==> state.follows(self),
            r is Ok && self.at() < self.input().len() ==> r.unwrap().at() == self.at() + 1,
    {
        let cur_tok = self.current_token();
        match cur_tok {
            Err(_) => Ok(self),
            Ok(tok) => {
                if tok.is_newline() {
                    Ok(self.advanced())
                } else {
                    Err(ParseError::ExpectedNewline(tok.get_position()))
                }
            },
        }
    }

    pub fn expect_comma(self) -> (r: Result<ParserState<'a>, ParseError>)
        requires
            self.wf(),
        ensures
            moved(r) == comma_at(self.input(), self.at()),
            r matches Ok(state) ==> state.follows(self) && state.at() == self.at() + 1,
    {
        let cur_tok = self.current_token()?;
        if cur_tok.is_comma() {
            Ok(self.advanced())
        } else {
            Err(ParseError::ExpectedComma(cur_tok.get_position()))
        }
    }

    pub fn expect_dot(self) -> (r: Result<ParserState<'a>, ParseError>)
        requires
            self.wf(),
        ensures
            moved(r) == dot_at(self.input(), self.at()),
            r matches Ok(state) ==> state.follows(self) && state.at() == self.at() + 1,
    {
        let cur_tok = self.current_token()?;
        if cur_tok.is_dot() {
            Ok(self.advanced())
        } else {
            Err(ParseError::ExpectedDot(cur_tok.get_position()))
        }
    }

    pub fn expect_at(self) -> (r: Result<ParserState<'a>, ParseError>)
        requires
            self.wf(),
        ensures
            moved(r) == at_sign_at(self.input(), self.at()),
            r matches Ok(state) ==> state.follows(self) && state.at() == self.at() + 1,
    {
        let cur_tok = self.current_token()?;
        if cur_tok.is_at() {
            Ok(self.advanced())
        } else {
            Err(ParseError::ExpectedAt(cur_tok.get_position()))
        }
    }

    pub fn expect_plus(self) -> (r: Result<ParserState<'a>, ParseError>)
        requires
            self.wf(),
        ensures
            moved(r) == plus_at(self.input(), self.at()),
            r matches Ok(state) ==> state.follows(self) && state.at() == self.at() + 1,
    {
        let cur_tok = self.current_token()?;
        if cur_tok.is_plus() {
            Ok(self.advanced())
        } else {
            Err(ParseError::ExpectedPlus(cur_tok.get_position()))
        }
    }

    pub fn expect_left_bracket(self) -> (r: Result<ParserState<'a>, ParseError>)
        requires
            self.wf(),
        ensures
            moved(r) == left_bracket_at(self.input(), self.at()),
            r matches Ok(state) ==> state.follows(self) && state.at() == self.at() + 1,
    {
        let cur_tok = self.current_token()?;
        if cur_tok.is_left_bracket() {
            Ok(self.advanced())
        } else {
            Err(ParseError::ExpectedLeftBracket(cur_tok.get_position()))
        }
    }

    pub fn expect_right_bracket(self) -> (r: Result<ParserState<'a>, ParseError>)
        requires
            self.wf(),
        ensures
            moved(r) == right_bracket_at(self.input(), self.at()),
            r matches Ok(state) ==> state.follows(self) && state.at() == self.at() + 1,
    {
        let cur_tok = self.current_token()?;
        if cur_tok.is_right_bracket() {
            Ok(self.advanced())
        } else {
            Err(ParseError::ExpectedRightBracket(cur_tok.get_position()))
        }
    }

    pub fn parse_program(self) -> (r: Result<ParseResult<'a, Program>, ParseError>)
        requires
            self.wf(),
        ensures
            match r {
                Ok(p) => lines_from(self.input(), self.at(), Seq::empty()) == Ok::<
                    Seq<LineView>,
                    ParseErrorView,
                >(p.result@) && p.state.follows(self),
                Err(e) => lines_from(self.input(), self.at(), Seq::empty()) == Err::<
                    Seq<LineView>,
                    ParseErrorView,
                >(e@),
            },
    {
        let mut lines: Vec<Line> = Vec::new();
        let mut cur_state = self;
        assert(line_views(lines@) =~= Seq::<LineView>::empty());
        while cur_state.position < cur_state.tokens.len()
            invariant
                self.wf(),
                cur_state.wf(),
                cur_state.follows(self),
                lines_from(self.input(), self.at(), Seq::empty()) == lines_from(
                    cur_state.input(),
                    cur_state.at(),
                    line_views(lines@),
                ),
            decreases cur_state.input().len() - cur_state.at(),
        {
            let ghost before = line_views(lines@);
            let result = cur_state.parse_line()?;
            cur_state = result.state;
            let ghost line = result.result@;
            lines.push(result.result);
            assert(line_views(lines@) =~= before.push(line));
        }
        Ok(ParseResult { state: cur_state, result: Program { lines: lines } })
    }

    pub fn parse_line(self) -> (r: Result<ParseResult<'a, Line>, ParseError>)
        requires
            self.wf(),
        ensures
            produced(r) == line_at(self.input(), self.at()),
            kept(self, r),
            r matches Ok(p) ==> p.state.wf() && (self.at() < self.input().len() ==> p.state.at()
                > self.at()),
    {
        let mut cur_state = self;

        let result = cur_state.parse_org_line();
        if result.is_ok() {
            return result;
        }
        let result = cur_state.parse_equ_def();
        if result.is_ok() {
            return result;
        }
        let result_label = cur_state.parse_label();
        let label = if let Ok(parse_result_label) = result_label {
            cur_state = parse_result_label.state;
            Some(parse_result_label.result)
        } else {
            None
        };

        let result_lbody = cur_state.parse_line_body();
        let lbody = if let Ok(parse_result_lbody) = result_lbody {
            cur_state = parse_result_lbody.state;
            Some(parse_result_lbody.result)
        } else {
            None
        };

        let newline_result = cur_state.expect_newline()?;
        Ok(
            ParseResult {
                state: newline_result,
                result: Line::ProgramLine { label: label, body: lbody },
            },
        )
    }

    fn truncate(number: i32) -> (address: u16)
        ensures
            address == origin(number),
    {
        let low: i32 = number % 0x10000;
        if low < 0 {
            (low + 0x10000) as u16
        } else {
            low as u16
        }
    }

    pub fn parse_org_line(self) -> (r: Result<ParseResult<'a, Line>, ParseError>)
        requires
            self.wf(),
        ensures
            produced(r) == org_line_at(self.input(), self.at()),
            kept(self, r),
            r matches Ok(p) ==> p.state.wf() && p.state.at() > self.at(),
    {
        let cur_state = self.expect_keyword(Keyword::Org)?;
        let ParseResult { state: cur_state, result: number } = cur_state.parse_number()?;
        let cur_state = cur_state.expect_newline()?;
        Ok(
            ParseResult {
                state: cur_state,
                result: Line::OrgLine { address: Self::truncate(number) },
            },
        )
    }

    pub fn parse_equ_def(self) -> (r: Result<ParseResult<'a, Line>, ParseError>)
        requires
            self.wf(),
        ensures
            produced(r) == equ_def_at(self.input(), self.at()),
            kept(self, r),
            r matches Ok(p) ==> p.state.wf() && p.state.at() > self.at(),
    {
        let (cur_state, id) = self.expect_identifier()?;
        let cur_state = cur_state.expect_keyword(Keyword::Equ)?;
        let ParseResult { state: cur_state, result: number } = cur_state.parse_number()?;
        let cur_state = cur_state.expect_newline()?;
        Ok(ParseResult { state: cur_state, result: Line::EquDef { id: id, value: number } })
    }

    pub fn parse_label(self) -> (r: Result<ParseResult<'a, Label>, ParseError>)
        requires
            self.wf(),
        ensures
            produced(r) == label_at(self.input(), self.at()),
            kept(self, r),
    {
        let cur_tok = self.current_token()?;
        let label_txt = match cur_tok {
            Token::Identifier(s, _) => s,
            _ => {
                return Err(ParseError::ExpectedIdentifier(cur_tok.get_position()));
            },
        };
        let cur_state = self.advanced();
        let cur_tok = cur_state.current_token()?;
        if !cur_tok.is_colon() {
            return Err(ParseError::ExpectedColon(cur_tok.get_position()));
        }
        Ok(ParseResult { state: cur_state.advanced(), result: Label(label_txt) })
    }

    pub fn parse_line_body(self) -> (r: Result<ParseResult<'a, LineBody>, ParseError>)
        requires
            self.wf(),
        ensures
            produced(r) == line_body_at(self.input(), self.at()),
            kept(self, r),
    {
        let result = self.parse_code_line();
        if result.is_ok() {
            return result;
        }
        let result = self.parse_value_def();
        if result.is_ok() {
            return result;
        }
        let cur_tok = self.current_token()?;
        Err(ParseError::InvalidLineBody(cur_tok.get_position()))
    }

    #[verifier::loop_isolation(false)]
    pub fn parse_code_line(self) -> (r: Result<ParseResult<'a, LineBody>, ParseError>)
        requires
            self.wf(),
        ensures
            produced(r) == code_line_at(self.input(), self.at()),
            kept(self, r),
    {
        let (cur_state, operator) = self.expect_operator()?;
        let mut operands: Vec<Operand> = Vec::new();
        let first_operand = cur_state.parse_operand();
        let ParseResult { state: first_state, result: first_operand } = match first_operand {
            Err(_) => {
                assert(operand_views(operands@) =~= Seq::<OperandView>::empty());
                return Ok(
                    ParseResult {
                        state: cur_state,
                        result: LineBody::CodeLine { operator: operator, operands: operands },
                    },
                );
            },
            Ok(first) => first,
        };
        let mut cur_state = first_state;
        let ghost first = first_operand@;
        operands.push(first_operand);
        assert(operand_views(operands@) =~= seq![first]);
        let ghost begin = cur_state;
        let mut more = true;
        while more
            invariant
                self.wf(),
                cur_state.wf(),
                cur_state.follows(self),
                operands_from(begin.input(), begin.at(), seq![first]) == operands_from(
                    cur_state.input(),
                    cur_state.at(),
                    operand_views(operands@),
                ),
                !more ==> comma_at(cur_state.input(), cur_state.at()) is Err,
            decreases cur_state.input().len() - cur_state.at() + if more { 1int } else { 0int },
        {
            match cur_state.expect_comma() {
                Err(_) => {
                    more = false;
                },
                Ok(new_state) => {
                    let ghost before = operand_views(operands@);
                    let ParseResult { state: new_state2, result: next_operand } =
                        new_state.parse_operand()?;
                    cur_state = new_state2;
                    let ghost next = next_operand@;
                    operands.push(next_operand);
                    assert(operand_views(operands@) =~= before.push(next));
                },
            }
        }
        Ok(
            ParseResult {
                state: cur_state,
                result: LineBody::CodeLine { operator: operator, operands: operands },
            },
        )
    }

    /// The value of a number without its mark: an optional minus sign and
    /// digits of the base. None where a character is no digit of the base or
    /// the value does not fit in 32 bits.
    #[verifier::loop_isolation(false)]
    pub fn parse_base(s: &str, base: u8) -> (r: Option<i32>)
        requires
            2 <= base <= 16,
        ensures
            r == literal_value(s@, base as int),
    {
        let chars = chars_of(s);
        let negative = chars.len() > 0 && chars[0] == '-';
        let start: usize = if negative {
            1
        } else {
            0
        };
        let ghost digits = chars@.skip(start as int);
        assert(s@.skip(0) =~= s@);
        let mut result: i64 = 0;
        let mut i: usize = start;
        assert(digits.take(0) =~= Seq::<char>::empty());
        while i < chars.len()
            invariant
                start <= i <= chars.len(),
                2 <= base <= 16,
                digits == chars@.skip(start as int),
                digits_valid(digits.take(i - start), base as int),
                result == magnitude(digits.take(i - start), base as int),
                0 <= result <= 0x8000_0000,
            decreases chars.len() - i,
        {
            let ghost k = i - start;
            proof {
                assert(digits.take(k + 1).drop_last() =~= digits.take(k));
                assert(digits.take(k + 1).last() == chars[i as int]);
            }
            let d = match digit(chars[i], base) {
                Some(d) => d,
                None => {
                    assert(!digits_valid(digits, base as int)) by {
                        assert(digits[k] == chars[i as int]);
                    }
                    return None;
                },
            };
            assert(result * (base as i64) <= 0x8000_0000 * 16) by (nonlinear_arith)
                requires
                    0 <= result <= 0x8000_0000,
                    2 <= base <= 16,
            ;
            assert(result * (base as i64) >= 0) by (nonlinear_arith)
                requires
                    0 <= result,
                    2 <= base,
            ;
            result = result * (base as i64) + d as i64;
            assert(result == magnitude(digits.take(k + 1), base as int));
            assert(digits_valid(digits.take(k + 1), base as int)) by {
                assert forall|j: int| 0 <= j < k + 1 implies (#[trigger] digit_in(
                    digits.take(k + 1)[j],
                    base as int,
                )) is Some by {
                    if j < k {
                        assert(digits.take(k + 1)[j] == digits.take(k)[j]);
                    }
                }
            }
            if result > 0x8000_0000 {
                proof {
                    lemma_magnitude_grows(digits, base as int, k + 1);
                }
                return None;
            }
            i += 1;
        }
        assert(digits.take(i - start) =~= digits);
        if negative {
            Some((-result) as i32)
        } else if result > 0x7FFF_FFFF {
            None
        } else {
            Some(result as i32)
        }
    }

    fn literal(group: String, base: u8, word: String) -> (r: Result<i32, ParseError>)
        requires
            2 <= base <= 16,
        ensures
            result_view(r) == literal(group@, base as int, word@),
    {
        match Self::parse_base(group.as_str(), base) {
            Some(value) => Ok(value),
            None => Err(ParseError::InvalidNumber(word)),
        }
    }

    /// The value of a lower-case number, once the four expressions have been
    /// matched against it: each argument but the last is what one of them
    /// captured.
    pub fn number_from_captures(
        binary: Option<String>,
        octal: Option<String>,
        decimal: Option<String>,
        hexadecimal: Option<String>,
        word: String,
    ) -> (r: Result<i32, ParseError>)
        ensures
            result_view(r) == number_from(
                text_of(binary),
                text_of(octal),
                text_of(decimal),
                text_of(hexadecimal),
                word@,
            ),
    {
        if let Some(group) = binary {
            Self::literal(group, 2, word)
        } else if let Some(group) = octal {
            Self::literal(group, 8, word)
        } else if let Some(group) = decimal {
            Self::literal(group, 10, word)
        } else if let Some(group) = hexadecimal {
            Self::literal(group, 16, word)
        } else {
            Err(ParseError::InvalidNumber(word))
        }
    }

    pub fn parse_number(self) -> (r: Result<ParseResult<'a, i32>, ParseError>)
        requires
            self.wf(),
        ensures
            produced(r) == number_at(self.input(), self.at()),
            kept(self, r),
            r matches Ok(p) ==> p.state.wf() && p.state.at() == self.at() + 1,
    {
        let cur_tok = self.current_token()?;
        let text = match cur_tok {
            Token::Number(text, _) => text,
            _ => {
                return Err(ParseError::ExpectedNumber(cur_tok.get_position()));
            },
        };
        let num_string = to_lowercase(text.as_str());
        let binary = first_group("^(-?[01]+)b$", num_string.as_str());
        let octal = first_group("^(-?[0-7]+)o$", num_string.as_str());
        let decimal = first_group("^(-?[0-9]+)$", num_string.as_str());
        let hexadecimal = first_group("^(-?[0-9][0-9a-f]*)h$", num_string.as_str());
        let number = Self::number_from_captures(binary, octal, decimal, hexadecimal, num_string)?;
        Ok(ParseResult { state: self.advanced(), result: number })
    }

    pub fn parse_operand(self) -> (r: Result<ParseResult<'a, Operand>, ParseError>)
        requires
            self.wf(),
        ensures
            produced(r) == operand_at(self.input(), self.at()),
            kept(self, r),
            r matches Ok(p) ==> p.state.wf() && p.state.at() > self.at(),
    {
        let res_indirect_sum = self.parse_indirect_sum();
        if res_indirect_sum.is_ok() {
            return res_indirect_sum;
        }
        let res_indirect = self.parse_indirect();
        if res_indirect.is_ok() {
            return res_indirect;
        }
        let res_immediate = self.parse_immediate();
        if res_immediate.is_ok() {
            return res_immediate;
        }
        let res_register = self.parse_register();
        if let Ok(result) = res_register {
            return Ok(
                ParseResult { state: result.state, result: Operand::Register(result.result) },
            );
        }
        let res_direct = self.parse_direct();
        if res_direct.is_ok() {
            return res_direct;
        }
        let cur_tok = self.current_token()?;
        Err(ParseError::InvalidOperand(cur_tok))
    }

    pub fn parse_indirect_sum(self) -> (r: Result<ParseResult<'a, Operand>, ParseError>)
        requires
            self.wf(),
        ensures
            produced(r) == indirect_sum_at(self.input(), self.at()),
            kept(self, r),
            r matches Ok(p) ==> p.state.wf() && p.state.at() > self.at(),
    {
        let cur_state = self.expect_at()?;
        let ParseResult { state: cur_state, result: register1 } = cur_state.parse_register()?;
        let cur_state = cur_state.expect_plus()?;
        let ParseResult { state: cur_state, result: register2 } = cur_state.parse_register()?;
        Ok(ParseResult { state: cur_state, result: Operand::IndirectSum(register1, register2) })
    }

    pub fn parse_indirect(self) -> (r: Result<ParseResult<'a, Operand>, ParseError>)
        requires
            self.wf(),
        ensures
            produced(r) == indirect_at(self.input(), self.at()),
            kept(self, r),
            r matches Ok(p) ==> p.state.wf() && p.state.at() > self.at(),
    {
        let cur_state = self.expect_at()?;
        let ParseResult { state: cur_state, result: register } = cur_state.parse_register()?;
        Ok(ParseResult { state: cur_state, result: Operand::IndirectReg(register) })
    }

    pub fn parse_immediate(self) -> (r: Result<ParseResult<'a, Operand>, ParseError>)
        requires
            self.wf(),
        ensures
            produced(r) == immediate_at(self.input(), self.at()),
            kept(self, r),
            r matches Ok(p) ==> p.state.wf() && p.state.at() > self.at(),
    {
        let cur_tok = self.current_token()?;
        if let Token::Identifier(name, _) = cur_tok {
            return Ok(ParseResult { state: self.advanced(), result: Operand::ImmediateId(name) });
        }
        if cur_tok.is_number() {
            let ParseResult { state: cur_state, result: number } = self.parse_number()?;
            return Ok(ParseResult { state: cur_state, result: Operand::Immediate(number) });
        }
        Err(ParseError::GeneralError)
    }

    pub fn parse_register(self) -> (r: Result<ParseResult<'a, Register>, ParseError>)
        requires
            self.wf(),
        ensures
            produced(r) == register_at(self.input(), self.at()),
            kept(self, r),
            r matches Ok(p) ==> p.state.wf() && p.state.at() == self.at() + 1,
    {
        let cur_tok = self.current_token()?;
        if cur_tok.is_identifier() {
            let name = cur_tok.get_string().unwrap();
            if let Ok(reg_result) = Register::from_str(name.as_str()) {
                Ok(ParseResult { state: self.advanced(), result: reg_result })
            } else {
                Err(ParseError::InvalidRegister(cur_tok))
            }
        } else {
            Err(ParseError::ExpectedIdentifier(cur_tok.get_position()))
        }
    }

    pub fn parse_direct(self) -> (r: Result<ParseResult<'a, Operand>, ParseError>)
        requires
            self.wf(),
        ensures
            produced(r) == direct_at(self.input(), self.at()),
            kept(self, r),
            r matches Ok(p) ==> p.state.wf() && p.state.at() > self.at(),
    {
        let ParseResult { state: cur_state, result: direct } = if let Ok(result) =
            self.parse_direct_number() {
            result
        } else {
            self.expect_direct_id()?
        };
        if let Ok(ParseResult { state: cur_state, result: bit_num }) = cur_state.parse_bit() {
            let bit_addr = Self::direct_bit(direct, bit_num)?;
            Ok(ParseResult { state: cur_state, result: bit_addr })
        } else {
            Ok(ParseResult { state: cur_state, result: direct })
        }
    }

    pub fn parse_direct_number(self) -> (r: Result<ParseResult<'a, Operand>, ParseError>)
        requires
            self.wf(),
        ensures
            produced(r) == direct_number_at(self.input(), self.at()),
            kept(self, r),
            r matches Ok(p) ==> p.state.wf() && p.state.at() > self.at(),
    {
        let cur_state = self.expect_left_bracket()?;
        let ParseResult { state: cur_state, result: number } = cur_state.parse_number()?;
        let cur_state = cur_state.expect_right_bracket()?;
        Ok(ParseResult { state: cur_state, result: Operand::Direct(Self::to_byte(number)?) })
    }

    pub fn parse_bit(self) -> (r: Result<ParseResult<'a, u8>, ParseError>)
        requires
            self.wf(),
        ensures
            produced(r) == bit_at(self.input(), self.at()),
            kept(self, r),
            r matches Ok(p) ==> p.state.wf() && p.state.at() > self.at(),
    {
        let cur_state = self.expect_dot()?;
        let ParseResult { state: cur_state, result: number } = cur_state.parse_number()?;
        Ok(ParseResult { state: cur_state, result: Self::to_byte(number)? })
    }

    pub fn parse_value_def(self) -> (r: Result<ParseResult<'a, LineBody>, ParseError>)
        requires
            self.wf(),
        ensures
            produced(r) == value_def_at(self.input(), self.at()),
            kept(self, r),
    {
        let ParseResult { state: cur_state, result: definition } = self.parse_definition()?;
        let ParseResult { state: cur_state, result: values } = match definition {
            Definition::DefineByte => cur_state.parse_bytes()?,
            Definition::DefineWord => cur_state.parse_words()?,
        };
        Ok(ParseResult { state: cur_state, result: LineBody::ValueDefinition { values: values } })
    }

    pub fn parse_definition(self) -> (r: Result<ParseResult<'a, Definition>, ParseError>)
        requires
            self.wf(),
        ensures
            produced(r) == definition_at(self.input(), self.at()),
            kept(self, r),
            r matches Ok(p) ==> p.state.wf(),
    {
        let cur_tok = self.current_token()?;
        let position = cur_tok.get_position();
        let def_str = match cur_tok {
            Token::Identifier(s, _) => s,
            _ => {
                return Err(ParseError::ExpectedIdentifier(position));
            },
        };
        match Definition::from_str(def_str.as_str()) {
            Ok(definition) => Ok(ParseResult { state: self.advanced(), result: definition }),
            Err(_) => Err(ParseError::InvalidMnemonic(def_str, position)),
        }
    }

    #[verifier::loop_isolation(false)]
    pub fn parse_values(self, definition: Definition) -> (r: Result<
        ParseResult<'a, Vec<Value>>,
        ParseError,
    >)
        requires
            self.wf(),
        ensures
            produced_values(r) == values_at(self.input(), self.at(), definition),
            kept(self, r),
    {
        let mut values: Vec<Value> = Vec::new();
        let ParseResult { state: first_state, result: first_value } = self.parse_value(
            definition,
        )?;
        let mut cur_state = first_state;
        let ghost first = first_value@;
        values.push(first_value);
        assert(value_views(values@) =~= seq![first]);
        let ghost begin = cur_state;
        let mut more = true;
        while more
            invariant
                self.wf(),
                cur_state.wf(),
                cur_state.follows(self),
                values_from(begin.input(), begin.at(), seq![first], definition) == values_from(
                    cur_state.input(),
                    cur_state.at(),
                    value_views(values@),
                    definition,
                ),
                !more ==> comma_at(cur_state.input(), cur_state.at()) is Err,
            decreases cur_state.input().len() - cur_state.at() + if more { 1int } else { 0int },
        {
            match cur_state.expect_comma() {
                Err(_) => {
                    more = false;
                },
                Ok(new_state) => {
                    let ghost before = value_views(values@);
                    let ParseResult { state: new_state2, result: next_value } =
                        new_state.parse_value(definition)?;
                    cur_state = new_state2;
                    let ghost next = next_value@;
                    values.push(next_value);
                    assert(value_views(values@) =~= before.push(next));
                },
            }
        }
        Ok(ParseResult { state: cur_state, result: values })
    }

    pub fn parse_value(self, definition: Definition) -> (r: Result<
        ParseResult<'a, Value>,
        ParseError,
    >)
        requires
            self.wf(),
        ensures
            produced(r) == value_at(self.input(), self.at(), definition),
            kept(self, r),
            r matches Ok(p) ==> p.state.wf() && p.state.at() > self.at(),
    {
        match definition {
            Definition::DefineByte => self.parse_byte_value(),
            Definition::DefineWord => {
                let ParseResult { state: cur_state, result: number } = self.parse_number()?;
                Ok(ParseResult { state: cur_state, result: Value::Word(Self::to_word(number)?) })
            },
        }
    }

    pub fn parse_bytes(self) -> (r: Result<ParseResult<'a, Vec<Value>>, ParseError>)
        requires
            self.wf(),
        ensures
            produced_values(r) == values_at(self.input(), self.at(), Definition::DefineByte),
            kept(self, r),
    {
        self.parse_values(Definition::DefineByte)
    }

    pub fn parse_words(self) -> (r: Result<ParseResult<'a, Vec<Value>>, ParseError>)
        requires
            self.wf(),
        ensures
            produced_values(r) == values_at(self.input(), self.at(), Definition::DefineWord),
            kept(self, r),
    {
        self.parse_values(Definition::DefineWord)
    }

    pub fn parse_byte_value(self) -> (r: Result<ParseResult<'a, Value>, ParseError>)
        requires
            self.wf(),
        ensures
            produced(r) == byte_value_at(self.input(), self.at()),
            kept(self, r),
            r matches Ok(p) ==> p.state.wf() && p.state.at() > self.at(),
    {
        let cur_tok = self.current_token()?;
        if let Token::String(s, _) = cur_tok {
            return Ok(ParseResult { state: self.advanced(), result: Value::String(s) });
        }
        let ParseResult { state: cur_state, result: byte } = self.parse_number()?;
        Ok(ParseResult { state: cur_state, result: Value::Byte(Self::to_byte(byte)?) })
    }

    pub fn to_byte(byte: i32) -> (r: Result<u8, ParseError>)
        ensures
            result_view(r) == byte_of(byte),
    {
        if byte >= 0 && byte <= 255 {
            Ok(byte as u8)
        } else {
            Err(ParseError::InvalidByte(byte))
        }
    }

    pub fn to_word(word: i32) -> (r: Result<u16, ParseError>)
        ensures
            result_view(r) == word_of(word),
    {
        if word >= 0 && word <= 65535 {
            Ok(word as u16)
        } else {
            Err(ParseError::InvalidWord(word))
        }
    }

    /// The bit address that a direct address and a bit number stand for.
    pub fn direct_bit(direct: Operand, bit_num: u8) -> (r: Result<Operand, ParseError>)
        ensures
            result_view(r) == bit_address(direct@, bit_num),
    {
        if bit_num > 7 {
            return Err(ParseError::InvalidBitNumber(bit_num));
        }
        if let Operand::Direct(addr) = direct {
            if addr >= 0x20 && addr < 0x30 {
                Ok(Operand::DirectBit((addr - 0x20) * 8 + bit_num))
            } else if addr >= 0x80 && addr <= 0xFF - bit_num {
                Ok(Operand::DirectBit(addr + bit_num))
            } else {
                Err(ParseError::InvalidDirectAddr(addr))
            }
        } else {
            Err(ParseError::GeneralError)
        }
    }
}

} // verus!
