use asm8051::parser::ast::{
    Label, Line, LineBody, Operand, ParseError, ParserState, Program, Value,
};
use asm8051::parser::keywords::{Definition, DirectLocation, Keyword, Operator, Register};
use asm8051::parser::lexer::{Position, Token, Tokenizer};

fn tokens(s: &str) -> Vec<Token> {
    Tokenizer::tokenize(s).unwrap()
}

// Operands tests

// Registers

#[test]
fn test_parse_register() {
    let tokens = tokens("R1");
    let state = ParserState::new(&tokens);
    let result = state.parse_register();
    assert!(result.is_ok());
    assert_eq!(result.unwrap().result, Register::R(1));
}

#[test]
fn test_parse_register_fail() {
    let tokens = tokens("R8");
    let state = ParserState::new(&tokens);
    let result = state.parse_register();
    assert!(result.is_err());
}

#[test]
fn test_parse_register_fail2() {
    let tokens = tokens("asdf");
    let state = ParserState::new(&tokens);
    let result = state.parse_register();
    assert!(result.is_err());
}

// Immediate values

#[test]
fn test_number_binary() {
    let tokens = tokens("01101001b");
    let state = ParserState::new(&tokens);
    let result = state.parse_number();
    assert!(result.is_ok());
    assert_eq!(result.unwrap().result, 105);
}

#[test]
fn test_number_octal() {
    let tokens = tokens("744o");
    let state = ParserState::new(&tokens);
    let result = state.parse_number();
    assert!(result.is_ok());
    assert_eq!(result.unwrap().result, 484);
}

#[test]
fn test_number_decimal() {
    let tokens = tokens("183");
    let state = ParserState::new(&tokens);
    let result = state.parse_number();
    assert!(result.is_ok());
    assert_eq!(result.unwrap().result, 183);
}

#[test]
fn test_number_hex() {
    let tokens = tokens("0cdh");
    let state = ParserState::new(&tokens);
    let result = state.parse_number();
    assert!(result.is_ok());
    assert_eq!(result.unwrap().result, 205);
}

#[test]
fn test_number_invalid() {
    let tokens = tokens("0cdo");
    let state = ParserState::new(&tokens);
    let result = state.parse_number();
    assert!(result.is_err());
}

#[test]
fn test_immediate() {
    let tokens = tokens("0ABh");
    let state = ParserState::new(&tokens);
    let result = state.parse_immediate();
    assert!(result.is_ok());
    assert_eq!(result.unwrap().result, Operand::Immediate(171));
}

#[test]
fn test_immediate_id() {
    let tokens = tokens("label");
    let state = ParserState::new(&tokens);
    let result = state.parse_immediate();
    assert!(result.is_ok());
    assert_eq!(
        result.unwrap().result,
        Operand::ImmediateId("label".to_string())
    );
}

#[test]
fn test_define_bytes() {
    let tokens = tokens("db \"foo bar quux\", 13, 10, 0");
    let state = ParserState::new(&tokens);
    let result = state.parse_value_def();
    assert!(result.is_ok());
    assert_eq!(
        result.unwrap().result,
        LineBody::ValueDefinition {
            values: vec![
                Value::String("foo bar quux".to_owned()),
                Value::Byte(13),
                Value::Byte(10),
                Value::Byte(0)
            ],
        }
    );
}

#[test]
fn test_define_words() {
    let tokens = tokens("dw 278, 10765, 13");
    let state = ParserState::new(&tokens);
    let result = state.parse_value_def();
    assert!(result.is_ok());
    assert_eq!(
        result.unwrap().result,
        LineBody::ValueDefinition {
            values: vec![Value::Word(278), Value::Word(10765), Value::Word(13)],
        }
    );
}

#[test]
fn test_invalid_bytes() {
    let tokens = tokens("db \"foo bar quux\", 1376, 10, 0");
    let state = ParserState::new(&tokens);
    let result = state.parse_value_def();
    assert!(result.is_err());
}

#[test]
fn test_invalid_words() {
    let tokens = tokens("dw 278, \"abc\", 13");
    let state = ParserState::new(&tokens);
    let result = state.parse_value_def();
    assert!(result.is_err());
}

#[test]
fn test_parse_direct_sp() {
    let tokens = tokens("SP");
    let state = ParserState::new(&tokens);
    let result = state.parse_operand();
    assert!(result.is_ok());
    assert_eq!(result.unwrap().result, Operand::Direct(0x81));
}

#[test]
fn test_parse_direct_b() {
    let tokens = tokens("B");
    let state = ParserState::new(&tokens);
    let result = state.parse_operand();
    assert!(result.is_ok());
    assert_eq!(result.unwrap().result, Operand::Direct(0xF0));
}

#[test]
fn test_parse_direct_bit() {
    let tokens = tokens("p5.6");
    let state = ParserState::new(&tokens);
    let result = state.parse_operand();
    assert!(result.is_ok(), "{:?}", result.err().unwrap());
    assert_eq!(result.unwrap().result, Operand::DirectBit(0xFE));
}

#[test]
fn test_parser() {
    let program = "test: db \"foobar\", 0 ; test\nmov A, 20h\nret";
    let tokens = Tokenizer::tokenize(program);
    assert!(tokens.is_ok());
    let tokens = tokens.unwrap();

    let parsed_program = ParserState::parse(tokens);
    assert!(parsed_program.is_ok());
}

fn at(row: usize, column: usize) -> Position {
    Position { row, column }
}

fn operand(s: &str) -> Result<Operand, ParseError> {
    let tokens = tokens(s);
    ParserState::new(&tokens).parse_operand().map(|r| r.result)
}

fn number(s: &str) -> Result<i32, ParseError> {
    let tokens = vec![Token::Number(s.to_string(), at(1, 1))];
    ParserState::new(&tokens).parse_number().map(|r| r.result)
}

fn program(s: &str) -> Result<Program, ParseError> {
    ParserState::parse(tokens(s))
}

fn code(operator: Operator, operands: Vec<Operand>) -> Line {
    Line::ProgramLine {
        label: None,
        body: Some(LineBody::CodeLine { operator, operands }),
    }
}

#[test]
fn vocabulary_from_str() {
    assert_eq!(Operator::from_str("MoVx"), Ok(Operator::Movx));
    assert_eq!(Operator::from_str("da"), Ok(Operator::Da));
    assert_eq!(Operator::from_str("DA"), Ok(Operator::Da));
    assert_eq!(Operator::from_str("da,"), Err(()));
    assert_eq!(Operator::from_str("call"), Ok(Operator::Call));
    assert_eq!(Operator::from_str("xrl"), Ok(Operator::Xrl));
    assert_eq!(Operator::from_str("mo"), Err(()));
    assert_eq!(Operator::from_str(""), Err(()));
    assert_eq!("reti".parse::<Operator>(), Ok(Operator::Reti));
    assert_eq!(Keyword::from_str("ORG"), Ok(Keyword::Org));
    assert_eq!(Keyword::from_str("equ"), Ok(Keyword::Equ));
    assert_eq!(Keyword::from_str("db"), Err(()));
    assert_eq!("Equ".parse::<Keyword>(), Ok(Keyword::Equ));
    assert_eq!(Definition::from_str("DB"), Ok(Definition::DefineByte));
    assert_eq!(Definition::from_str("dw"), Ok(Definition::DefineWord));
    assert_eq!(Definition::from_str("dd"), Err(()));
    assert_eq!("dW".parse::<Definition>(), Ok(Definition::DefineWord));
}

#[test]
fn register_names() {
    assert_eq!(Register::from_str("R0"), Ok(Register::R(0)));
    assert_eq!(Register::from_str("R7"), Ok(Register::R(7)));
    assert_eq!(Register::from_str("R8"), Err(()));
    assert_eq!(Register::from_str("R9"), Err(()));
    // Working registers are written with a capital R.
    assert_eq!(Register::from_str("r1"), Err(()));
    assert_eq!(Register::from_str("R10"), Err(()));
    assert_eq!(Register::from_str("R"), Err(()));
    assert_eq!(Register::from_str("a"), Ok(Register::A));
    assert_eq!(Register::from_str("A"), Ok(Register::A));
    assert_eq!(Register::from_str("c"), Ok(Register::C));
    assert_eq!(Register::from_str("Pc"), Ok(Register::PC));
    assert_eq!(Register::from_str("DPTR"), Ok(Register::DPTR));
    assert_eq!(Register::from_str("dpt"), Err(()));
    assert_eq!("R3".parse::<Register>(), Ok(Register::R(3)));
}

#[test]
fn register_from_capture_decides_on_the_group() {
    assert_eq!(
        Register::from_capture(Some("5".to_string()), "R5"),
        Ok(Register::R(5))
    );
    assert_eq!(Register::from_capture(Some("8".to_string()), "R8"), Err(()));
    assert_eq!(Register::from_capture(Some("R5".to_string()), "R5"), Err(()));
    assert_eq!(Register::from_capture(Some("".to_string()), "R5"), Err(()));
    assert_eq!(Register::from_capture(Some("x".to_string()), "a"), Err(()));
    assert_eq!(Register::from_capture(None, "DpTr"), Ok(Register::DPTR));
    assert_eq!(Register::from_capture(None, "R5"), Err(()));
}

#[test]
fn special_function_registers_and_their_addresses() {
    let table: Vec<(&str, u8)> = vec![
        ("P0", 0x80),
        ("SP", 0x81),
        ("DPL", 0x82),
        ("DPH", 0x83),
        ("PCON", 0x87),
        ("TCON", 0x88),
        ("TMOD", 0x89),
        ("TL0", 0x8A),
        ("TL1", 0x8B),
        ("TH0", 0x8C),
        ("TH1", 0x8D),
        ("P1", 0x90),
        ("SCON", 0x98),
        ("SBUF", 0x99),
        ("P2", 0xA0),
        ("IEN0", 0xA8),
        ("IP0", 0xA9),
        ("P3", 0xB0),
        ("IEN1", 0xB8),
        ("IP1", 0xB9),
        ("IRCON", 0xC0),
        ("CCEN", 0xC1),
        ("CCL1", 0xC2),
        ("CCH1", 0xC3),
        ("CCL2", 0xC4),
        ("CCH2", 0xC5),
        ("CCL3", 0xC6),
        ("CCH3", 0xC7),
        ("T2CON", 0xC8),
        ("CRCL", 0xCA),
        ("CRCH", 0xCB),
        ("TL2", 0xCC),
        ("TH2", 0xCD),
        ("PSW", 0xD0),
        ("ADCON", 0xD8),
        ("ADDAT", 0xD9),
        ("DAPR", 0xDA),
        ("P6", 0xDB),
        ("ACC", 0xE0),
        ("P4", 0xE8),
        ("B", 0xF0),
        ("P5", 0xF8),
    ];
    for (name, addr) in table {
        let location = DirectLocation::from_str(name).unwrap();
        assert_eq!(location.get_addr(), addr, "{}", name);
        let lower = DirectLocation::from_str(&name.to_lowercase()).unwrap();
        assert_eq!(lower, location);
    }
    assert_eq!(DirectLocation::from_str("p3"), Ok(DirectLocation::Port(3)));
    assert_eq!(DirectLocation::from_str("P7"), Err(()));
    assert_eq!(DirectLocation::from_str("p9"), Err(()));
    assert_eq!(DirectLocation::from_str("p10"), Err(()));
    assert_eq!(DirectLocation::from_str("a"), Err(()));
    assert_eq!("psw".parse::<DirectLocation>(), Ok(DirectLocation::PSW));
}

#[test]
fn location_from_capture_decides_on_the_group() {
    let word = "p4".to_string();
    assert_eq!(
        DirectLocation::from_capture(Some("4".to_string()), &word),
        Ok(DirectLocation::Port(4))
    );
    assert_eq!(
        DirectLocation::from_capture(Some("7".to_string()), &word),
        Err(())
    );
    assert_eq!(
        DirectLocation::from_capture(Some("p4".to_string()), &word),
        Err(())
    );
    assert_eq!(DirectLocation::from_capture(None, &word), Err(()));
    assert_eq!(
        DirectLocation::from_capture(None, &"tmod".to_string()),
        Ok(DirectLocation::TMOD)
    );
}

#[test]
fn numbers_in_every_base() {
    assert_eq!(number("0"), Ok(0));
    assert_eq!(number("255"), Ok(255));
    assert_eq!(number("1010b"), Ok(10));
    assert_eq!(number("1010B"), Ok(10));
    assert_eq!(number("17o"), Ok(15));
    assert_eq!(number("17O"), Ok(15));
    assert_eq!(number("0FFh"), Ok(255));
    assert_eq!(number("0ffH"), Ok(255));
    assert_eq!(number("1234h"), Ok(0x1234));
    assert_eq!(number("0100h"), Ok(0x100));
    // binary is tried before hexadecimal
    assert_eq!(number("0bh"), Ok(11));
    assert_eq!(number("11b"), Ok(3));
    assert_eq!(number("-5"), Ok(-5));
    assert_eq!(number("-80h"), Ok(-128));
    assert_eq!(number("2147483647"), Ok(i32::MAX));
    assert_eq!(number("-2147483648"), Ok(i32::MIN));
    assert_eq!(number("7FFFFFFFh"), Ok(i32::MAX));
}

#[test]
fn numbers_of_no_shape_are_refused() {
    let refused = |s: &str| Err(ParseError::InvalidNumber(s.to_lowercase()));
    assert_eq!(number("ABh"), refused("ABh"));
    assert_eq!(number("12b"), refused("12b"));
    assert_eq!(number("8o"), refused("8o"));
    assert_eq!(number("0cdo"), refused("0cdo"));
    assert_eq!(number("h"), refused("h"));
    assert_eq!(number(""), refused(""));
    assert_eq!(number("12 "), refused("12 "));
    assert_eq!(number("-"), refused("-"));
    assert_eq!(number("0FG"), refused("0FG"));
    // too large for 32 bits
    assert_eq!(number("2147483648"), refused("2147483648"));
    assert_eq!(number("-2147483649"), refused("-2147483649"));
    assert_eq!(number("0FFFFFFFFh"), refused("0FFFFFFFFh"));
    assert_eq!(
        number("99999999999999999999999999"),
        refused("99999999999999999999999999")
    );
}

#[test]
fn number_from_captures_takes_the_first_base_that_matched() {
    let s = |t: &str| Some(t.to_string());
    let word = || "word".to_string();
    assert_eq!(
        ParserState::number_from_captures(s("101"), s("101"), s("101"), s("101"), word()),
        Ok(5)
    );
    assert_eq!(
        ParserState::number_from_captures(None, s("101"), s("101"), s("101"), word()),
        Ok(65)
    );
    assert_eq!(
        ParserState::number_from_captures(None, None, s("101"), s("101"), word()),
        Ok(101)
    );
    assert_eq!(
        ParserState::number_from_captures(None, None, None, s("101"), word()),
        Ok(257)
    );
    assert_eq!(
        ParserState::number_from_captures(None, None, None, None, word()),
        Err(ParseError::InvalidNumber(word()))
    );
    // a group that holds a digit of another base is refused
    assert_eq!(
        ParserState::number_from_captures(s("102"), None, None, None, word()),
        Err(ParseError::InvalidNumber(word()))
    );
    assert_eq!(
        ParserState::number_from_captures(None, None, None, s("-1f"), word()),
        Ok(-31)
    );
}

#[test]
fn parse_base_reads_sign_and_digits() {
    assert_eq!(ParserState::parse_base("01101001", 2), Some(105));
    assert_eq!(ParserState::parse_base("744", 8), Some(484));
    assert_eq!(ParserState::parse_base("183", 10), Some(183));
    assert_eq!(ParserState::parse_base("0cd", 16), Some(205));
    assert_eq!(ParserState::parse_base("0CD", 16), Some(205));
    assert_eq!(ParserState::parse_base("-12", 10), Some(-12));
    assert_eq!(ParserState::parse_base("", 10), Some(0));
    assert_eq!(ParserState::parse_base("-", 10), Some(0));
    assert_eq!(ParserState::parse_base("12", 2), None);
    assert_eq!(ParserState::parse_base("1-2", 10), None);
    assert_eq!(ParserState::parse_base("g", 16), None);
    assert_eq!(ParserState::parse_base("80000000", 16), None);
    assert_eq!(ParserState::parse_base("-80000000", 16), Some(i32::MIN));
    assert_eq!(ParserState::parse_base("-80000001", 16), None);
}

#[test]
fn bytes_and_words_in_range() {
    assert_eq!(ParserState::to_byte(0), Ok(0));
    assert_eq!(ParserState::to_byte(255), Ok(255));
    assert_eq!(ParserState::to_byte(256), Err(ParseError::InvalidByte(256)));
    assert_eq!(ParserState::to_byte(-1), Err(ParseError::InvalidByte(-1)));
    assert_eq!(ParserState::to_word(0), Ok(0));
    assert_eq!(ParserState::to_word(65535), Ok(65535));
    assert_eq!(
        ParserState::to_word(65536),
        Err(ParseError::InvalidWord(65536))
    );
    assert_eq!(ParserState::to_word(-1), Err(ParseError::InvalidWord(-1)));
}

#[test]
fn bit_addresses() {
    assert_eq!(
        ParserState::direct_bit(Operand::Direct(0x20), 0),
        Ok(Operand::DirectBit(0x00))
    );
    assert_eq!(
        ParserState::direct_bit(Operand::Direct(0x24), 3),
        Ok(Operand::DirectBit(0x23))
    );
    assert_eq!(
        ParserState::direct_bit(Operand::Direct(0x2F), 7),
        Ok(Operand::DirectBit(0x7F))
    );
    assert_eq!(
        ParserState::direct_bit(Operand::Direct(0x80), 0),
        Ok(Operand::DirectBit(0x80))
    );
    assert_eq!(
        ParserState::direct_bit(Operand::Direct(0x90), 5),
        Ok(Operand::DirectBit(0x95))
    );
    assert_eq!(
        ParserState::direct_bit(Operand::Direct(0xF8), 7),
        Ok(Operand::DirectBit(0xFF))
    );
    assert_eq!(
        ParserState::direct_bit(Operand::Direct(0xF9), 7),
        Err(ParseError::InvalidDirectAddr(0xF9))
    );
    assert_eq!(
        ParserState::direct_bit(Operand::Direct(0x1F), 0),
        Err(ParseError::InvalidDirectAddr(0x1F))
    );
    assert_eq!(
        ParserState::direct_bit(Operand::Direct(0x30), 0),
        Err(ParseError::InvalidDirectAddr(0x30))
    );
    assert_eq!(
        ParserState::direct_bit(Operand::Direct(0x7F), 1),
        Err(ParseError::InvalidDirectAddr(0x7F))
    );
    assert_eq!(
        ParserState::direct_bit(Operand::Direct(0x20), 8),
        Err(ParseError::InvalidBitNumber(8))
    );
    assert_eq!(
        ParserState::direct_bit(Operand::Immediate(0x20), 1),
        Err(ParseError::GeneralError)
    );
}

#[test]
fn every_bit_of_the_bit_addressable_memory() {
    for a in 0x20u8..0x30 {
        for b in 0u8..8 {
            let text = format!("[{} ].{}", a, b);
            assert_eq!(
                operand(&text),
                Ok(Operand::DirectBit((a - 0x20) * 8 + b)),
                "{}",
                text
            );
        }
    }
}

#[test]
fn operands_in_the_order_of_the_rules() {
    assert_eq!(
        operand("@A+DPTR"),
        Ok(Operand::IndirectSum(Register::A, Register::DPTR))
    );
    assert_eq!(
        operand("@a + pc"),
        Ok(Operand::IndirectSum(Register::A, Register::PC))
    );
    assert_eq!(operand("@R0"), Ok(Operand::IndirectReg(Register::R(0))));
    assert_eq!(operand("@R5"), Ok(Operand::IndirectReg(Register::R(5))));
    assert_eq!(operand("@dptr"), Ok(Operand::IndirectReg(Register::DPTR)));
    // a bare word is a name, even where it spells a register
    assert_eq!(operand("A"), Ok(Operand::ImmediateId("A".to_string())));
    assert_eq!(operand("R1"), Ok(Operand::ImmediateId("R1".to_string())));
    assert_eq!(operand("loop"), Ok(Operand::ImmediateId("loop".to_string())));
    assert_eq!(operand("42"), Ok(Operand::Immediate(42)));
    assert_eq!(operand("[30h ]"), Ok(Operand::Direct(0x30)));
    assert_eq!(operand("ACC"), Ok(Operand::Direct(0xE0)));
    assert_eq!(operand("P1.0"), Ok(Operand::DirectBit(0x90)));
    assert_eq!(operand("psw.7"), Ok(Operand::DirectBit(0xD7)));
    assert_eq!(operand("[20h ].1"), Ok(Operand::DirectBit(0x01)));
}

#[test]
fn operands_that_cannot_be_read() {
    assert_eq!(operand(","), Err(ParseError::InvalidOperand(Token::Comma(at(1, 1)))));
    assert_eq!(
        operand("ret"),
        Err(ParseError::InvalidOperand(Token::Operator(
            Operator::Ret,
            at(1, 1)
        )))
    );
    assert_eq!(
        operand("@"),
        Err(ParseError::InvalidOperand(Token::At(at(1, 1))))
    );
    // an invalid number is not skipped over
    assert_eq!(
        operand("[300 ]"),
        Err(ParseError::InvalidOperand(Token::LeftBracket(at(1, 1))))
    );
    assert_eq!(
        operand("P1.8"),
        Err(ParseError::InvalidOperand(Token::DirectLocation(
            DirectLocation::Port(1),
            at(1, 1)
        )))
    );
    let tokens = tokens("P1.8");
    assert_eq!(
        ParserState::new(&tokens).parse_direct().map(|r| r.result),
        Err(ParseError::InvalidBitNumber(8))
    );
}

#[test]
fn each_rule_names_what_it_expected() {
    let ts = tokens("ret : x");
    let ret = ParserState::new(&ts);
    assert_eq!(
        ret.expect_keyword(Keyword::Org).map(|_| ()),
        Err(ParseError::ExpectedKeyword(Keyword::Org, at(1, 1)))
    );
    assert_eq!(
        ret.expect_identifier().map(|_| ()),
        Err(ParseError::ExpectedIdentifier(at(1, 1)))
    );
    assert_eq!(
        ret.expect_direct_id().map(|_| ()),
        Err(ParseError::ExpectedDirectLocation(at(1, 1)))
    );
    assert_eq!(
        ret.expect_newline().map(|_| ()),
        Err(ParseError::ExpectedNewline(at(1, 1)))
    );
    assert_eq!(
        ret.expect_comma().map(|_| ()),
        Err(ParseError::ExpectedComma(at(1, 1)))
    );
    assert_eq!(
        ret.expect_dot().map(|_| ()),
        Err(ParseError::ExpectedDot(at(1, 1)))
    );
    assert_eq!(
        ret.expect_at().map(|_| ()),
        Err(ParseError::ExpectedAt(at(1, 1)))
    );
    assert_eq!(
        ret.expect_plus().map(|_| ()),
        Err(ParseError::ExpectedPlus(at(1, 1)))
    );
    assert_eq!(
        ret.expect_left_bracket().map(|_| ()),
        Err(ParseError::ExpectedLeftBracket(at(1, 1)))
    );
    assert_eq!(
        ret.expect_right_bracket().map(|_| ()),
        Err(ParseError::ExpectedRightBracket(at(1, 1)))
    );
    assert_eq!(
        ret.parse_number().map(|r| r.result),
        Err(ParseError::ExpectedNumber(at(1, 1)))
    );
    assert_eq!(
        ret.parse_register().map(|r| r.result),
        Err(ParseError::ExpectedIdentifier(at(1, 1)))
    );
    assert_eq!(
        ret.parse_immediate().map(|r| r.result),
        Err(ParseError::GeneralError)
    );
    assert_eq!(
        ret.parse_label().map(|r| r.result),
        Err(ParseError::ExpectedIdentifier(at(1, 1)))
    );
    let (after, operator) = ret.expect_operator().unwrap();
    assert_eq!(operator, Operator::Ret);
    assert_eq!(
        after.expect_operator().map(|_| ()),
        Err(ParseError::ExpectedOperator(at(1, 5)))
    );
    assert_eq!(
        after.parse_line_body().map(|r| r.result),
        Err(ParseError::InvalidLineBody(at(1, 5)))
    );
    let ts = tokens("x y");
    let x = ParserState::new(&ts);
    assert_eq!(
        x.parse_label().map(|r| r.result),
        Err(ParseError::ExpectedColon(at(1, 3)))
    );
    assert_eq!(
        x.parse_register().map(|r| r.result),
        Err(ParseError::InvalidRegister(Token::Identifier(
            "x".to_string(),
            at(1, 1)
        )))
    );
    assert_eq!(
        x.parse_value_def().map(|r| r.result),
        Err(ParseError::InvalidMnemonic("x".to_string(), at(1, 1)))
    );
    let ts = tokens("x");
    let x = ParserState::new(&ts);
    assert_eq!(
        x.parse_label().map(|r| r.result),
        Err(ParseError::UnexpectedEof(Token::Identifier(
            "x".to_string(),
            at(1, 1)
        )))
    );
    let ts = tokens("db 256");
    assert_eq!(
        ParserState::new(&ts).parse_value_def().map(|r| r.result),
        Err(ParseError::InvalidByte(256))
    );
    let ts = tokens("dw 65536");
    assert_eq!(
        ParserState::new(&ts).parse_value_def().map(|r| r.result),
        Err(ParseError::InvalidWord(65536))
    );
    let ts = tokens("db 12, x");
    assert_eq!(
        ParserState::new(&ts).parse_value_def().map(|r| r.result),
        Err(ParseError::ExpectedNumber(at(1, 8)))
    );
}

#[test]
fn empty_tokens_are_an_empty_program() {
    assert_eq!(ParserState::parse(vec![]), Ok(Program { lines: vec![] }));
    assert_eq!(program(""), Ok(Program { lines: vec![] }));
    assert_eq!(program("; nothing"), Ok(Program { lines: vec![] }));
}

#[test]
fn lines_of_every_kind() {
    let source = "org 0100h\nN equ 5\nstart: sjmp start\n\nonly:\ndb \"AB\", 0\nret";
    let parsed = program(source).unwrap();
    assert_eq!(
        parsed.lines,
        vec![
            Line::OrgLine { address: 0x100 },
            Line::EquDef {
                id: "N".to_string(),
                value: 5
            },
            Line::ProgramLine {
                label: Some(Label("start".to_string())),
                body: Some(LineBody::CodeLine {
                    operator: Operator::Sjmp,
                    operands: vec![Operand::ImmediateId("start".to_string())],
                }),
            },
            Line::ProgramLine {
                label: None,
                body: None
            },
            Line::ProgramLine {
                label: Some(Label("only".to_string())),
                body: None
            },
            Line::ProgramLine {
                label: None,
                body: Some(LineBody::ValueDefinition {
                    values: vec![Value::String("AB".to_string()), Value::Byte(0)],
                }),
            },
            code(Operator::Ret, vec![]),
        ]
    );
}

#[test]
fn code_lines_and_their_operands() {
    assert_eq!(
        program("mov P3, 0AAh\n").unwrap().lines,
        vec![code(
            Operator::Mov,
            vec![Operand::Direct(0xB0), Operand::Immediate(0xAA)]
        )]
    );
    assert_eq!(
        program("cjne @R1, 10, again").unwrap().lines,
        vec![code(
            Operator::Cjne,
            vec![
                Operand::IndirectReg(Register::R(1)),
                Operand::Immediate(10),
                Operand::ImmediateId("again".to_string()),
            ]
        )]
    );
    assert_eq!(
        program("movc A, @A+DPTR").unwrap().lines,
        vec![code(
            Operator::Movc,
            vec![
                Operand::ImmediateId("A".to_string()),
                Operand::IndirectSum(Register::A, Register::DPTR),
            ]
        )]
    );
    assert_eq!(
        program("setb P1.3\nclr [2Fh ].7").unwrap().lines,
        vec![
            code(Operator::Setb, vec![Operand::DirectBit(0x93)]),
            code(Operator::Clr, vec![Operand::DirectBit(0x7F)]),
        ]
    );
}

#[test]
fn org_keeps_the_low_16_bits() {
    assert_eq!(
        program("org 0FFFFh").unwrap().lines,
        vec![Line::OrgLine { address: 0xFFFF }]
    );
    assert_eq!(
        program("org 10000h").unwrap().lines,
        vec![Line::OrgLine { address: 0 }]
    );
    assert_eq!(
        program("org 12345h").unwrap().lines,
        vec![Line::OrgLine { address: 0x2345 }]
    );
    let ts = vec![
        Token::Keyword(Keyword::Org, at(1, 1)),
        Token::Number("-1".to_string(), at(1, 5)),
    ];
    assert_eq!(
        ParserState::parse(ts).unwrap().lines,
        vec![Line::OrgLine { address: 0xFFFF }]
    );
}

#[test]
fn a_line_must_end_where_its_body_ends() {
    assert_eq!(
        program("ret ret"),
        Err(ParseError::ExpectedNewline(at(1, 5)))
    );
    // a label without a colon before a directive is no label
    assert_eq!(
        program("data db 1"),
        Err(ParseError::ExpectedNewline(at(1, 1)))
    );
    // an operand that cannot be read after a comma fails the body, not the line
    assert_eq!(
        program("push ACC,"),
        Err(ParseError::ExpectedNewline(at(1, 1)))
    );
    assert_eq!(
        program("nop\nmov A, 12b\n"),
        Err(ParseError::ExpectedNewline(at(2, 1)))
    );
    assert_eq!(program(","), Err(ParseError::ExpectedNewline(at(1, 1))));
}

#[test]
fn values_become_bytes() {
    assert_eq!(Value::Byte(0x41).into_bytes(), vec![0x41]);
    assert_eq!(Value::Word(0x1234).into_bytes(), vec![0x34, 0x12]);
    assert_eq!(Value::Word(0x00FF).into_bytes(), vec![0xFF, 0x00]);
    assert_eq!(
        Value::String("AB\u{e9}".to_string()).into_bytes(),
        vec![0x41, 0x42, 0xC3, 0xA9]
    );
    assert_eq!(Value::String(String::new()).into_bytes(), Vec::<u8>::new());
    assert_eq!(Value::Word(0x1234).to_bytes(), vec![0x34, 0x12]);
}
