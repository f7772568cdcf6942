use asm8051::parser::keywords::{DirectLocation, Keyword, Operator};
use asm8051::parser::lexer::{Position, Token, Tokenizer, TokenizerError};

#[test]
fn test_tokenize() {
    let text = "label: operator operand1, 0EFh ; comment";
    if let Ok(result) = Tokenizer::tokenize(text) {
        assert_eq!(result.len(), 6);

        // label
        if let Token::Identifier(ref s, pos) = result[0] {
            assert_eq!(s, "label");
            assert_eq!(pos.row, 1);
            assert_eq!(pos.column, 1);
        } else {
            panic!("result[0]: expected Identifier, found {:?}", result[0]);
        }

        // :
        if let Token::Colon(pos) = result[1] {
            assert_eq!(pos.row, 1);
            assert_eq!(pos.column, 6);
        } else {
            panic!("result[1]: expected Colon, found {:?}", result[1]);
        }

        // operator
        if let Token::Identifier(ref s, pos) = result[2] {
            assert_eq!(s, "operator");
            assert_eq!(pos.row, 1);
            assert_eq!(pos.column, 8);
        } else {
            panic!("result[2]: expected Identifier, found {:?}", result[2]);
        }

        // operand1
        if let Token::Identifier(ref s, pos) = result[3] {
            assert_eq!(s, "operand1");
            assert_eq!(pos.row, 1);
            assert_eq!(pos.column, 17);
        } else {
            panic!("result[3]: expected Identifier, found {:?}", result[3]);
        }

        // ,
        if let Token::Comma(pos) = result[4] {
            assert_eq!(pos.row, 1);
            assert_eq!(pos.column, 25);
        } else {
            panic!("result[4]: expected Comma, found {:?}", result[4]);
        }

        // 0EFh
        if let Token::Number(ref s, pos) = result[5] {
            assert_eq!(s, "0EFh");
            assert_eq!(pos.row, 1);
            assert_eq!(pos.column, 27);
        } else {
            panic!("result[5]: expected Number, found {:?}", result[5]);
        }
    } else {
        panic!("Tokenization failed!");
    }
}

#[test]
fn test_tokenize2() {
    let text = "mov a, 20h\nret";
    if let Ok(result) = Tokenizer::tokenize(text) {
        assert_eq!(result.len(), 6);

        // mov
        if let Token::Operator(oper, pos) = result[0] {
            assert_eq!(oper, Operator::Mov);
            assert_eq!(pos.row, 1);
            assert_eq!(pos.column, 1);
        } else {
            panic!("result[0]: expected Operator, found {:?}", result[0]);
        }

        // a
        if let Token::Identifier(ref s, pos) = result[1] {
            assert_eq!(s, "a");
            assert_eq!(pos.row, 1);
            assert_eq!(pos.column, 5);
        } else {
            panic!("result[1]: expected Identifier, found {:?}", result[1]);
        }

        // ,
        if let Token::Comma(pos) = result[2] {
            assert_eq!(pos.row, 1);
            assert_eq!(pos.column, 6);
        } else {
            panic!("result[2]: expected Comma, found {:?}", result[2]);
        }

        // 20h
        if let Token::Number(ref s, pos) = result[3] {
            assert_eq!(s, "20h");
            assert_eq!(pos.row, 1);
            assert_eq!(pos.column, 8);
        } else {
            panic!("result[3]: expected Number, found {:?}", result[3]);
        }

        // \n
        if let Token::Newline(pos) = result[4] {
            assert_eq!(pos.row, 1);
            assert_eq!(pos.column, 11);
        } else {
            panic!("result[4]: expected Newline, found {:?}", result[4]);
        }

        // ret
        if let Token::Operator(oper, pos) = result[5] {
            assert_eq!(oper, Operator::Ret);
            assert_eq!(pos.row, 2);
            assert_eq!(pos.column, 1);
        } else {
            panic!("result[5]: expected Operator, found {:?}", result[5]);
        }
    } else {
        panic!("Tokenization failed!");
    }
}

#[test]
fn test_string() {
    let text = "\"abcdefg\"";
    if let Ok(result) = Tokenizer::tokenize(text) {
        assert_eq!(result.len(), 1);
        if let Token::String(ref s, pos) = result[0] {
            assert_eq!(s, "abcdefg");
            assert_eq!(pos.row, 1);
            assert_eq!(pos.column, 1);
        } else {
            panic!("result[0]: expected String, found {:?}", result[0]);
        }
    } else {
        panic!("Tokenization failed!");
    }
}

#[test]
fn test_string_escape() {
    let text = "\"abcd\\nefg\"";
    if let Ok(result) = Tokenizer::tokenize(text) {
        assert_eq!(result.len(), 1);
        if let Token::String(ref s, pos) = result[0] {
            assert_eq!(s, "abcd\nefg");
            assert_eq!(pos.row, 1);
            assert_eq!(pos.column, 1);
        } else {
            panic!("result[0]: expected String, found {:?}", result[0]);
        }
    } else {
        panic!("Tokenization failed!");
    }
}

#[test]
fn test_string_quote() {
    let text = "\"abcd\\\"efg\"";
    if let Ok(result) = Tokenizer::tokenize(text) {
        assert_eq!(result.len(), 1);
        if let Token::String(ref s, pos) = result[0] {
            assert_eq!(s, "abcd\"efg");
            assert_eq!(pos.row, 1);
            assert_eq!(pos.column, 1);
        } else {
            panic!("result[0]: expected String, found {:?}", result[0]);
        }
    } else {
        panic!("Tokenization failed!");
    }
}

#[test]
fn test_string_invalid_escape() {
    let text = "\"abcd\\yefg\"";
    if let Err(TokenizerError::UnexpectedCharacter(pos, c)) = Tokenizer::tokenize(text) {
        assert_eq!(pos.row, 1);
        assert_eq!(pos.column, 7);
        assert_eq!(c, 'y');
    } else {
        panic!("Tokenization successful!");
    }
}

#[test]
fn test_invalid_number() {
    let text = "0abcdefgh";
    if let Err(TokenizerError::UnexpectedCharacter(pos, c)) = Tokenizer::tokenize(text) {
        assert_eq!(pos.row, 1);
        assert_eq!(pos.column, 8);
        assert_eq!(c, 'g');
    } else {
        panic!("Tokenization successful!");
    }
}

fn at(row: usize, column: usize) -> Position {
    Position { row, column }
}

#[test]
fn empty_text_gives_no_token() {
    assert_eq!(Tokenizer::tokenize("").unwrap(), vec![]);
}

#[test]
fn punctuators_and_their_places() {
    let tokens = Tokenizer::tokenize(": , . @ + [ ]").unwrap();
    assert_eq!(
        tokens,
        vec![
            Token::Colon(at(1, 1)),
            Token::Comma(at(1, 3)),
            Token::Dot(at(1, 5)),
            Token::At(at(1, 7)),
            Token::Plus(at(1, 9)),
            Token::LeftBracket(at(1, 11)),
            Token::RightBracket(at(1, 13)),
        ]
    );
}

#[test]
fn words_are_told_apart_in_any_case() {
    let tokens = Tokenizer::tokenize("ORG Equ acc P3 p7 MoV da db foo_1 _x").unwrap();
    assert_eq!(
        tokens,
        vec![
            Token::Keyword(Keyword::Org, at(1, 1)),
            Token::Keyword(Keyword::Equ, at(1, 5)),
            Token::DirectLocation(DirectLocation::ACC, at(1, 9)),
            Token::DirectLocation(DirectLocation::Port(3), at(1, 13)),
            Token::Identifier("p7".to_string(), at(1, 16)),
            Token::Operator(Operator::Mov, at(1, 19)),
            Token::Operator(Operator::Da, at(1, 23)),
            Token::Identifier("db".to_string(), at(1, 26)),
            Token::Identifier("foo_1".to_string(), at(1, 29)),
            Token::Identifier("_x".to_string(), at(1, 35)),
        ]
    );
}

#[test]
fn newline_moves_to_the_next_row() {
    let tokens = Tokenizer::tokenize("nop\r\n\n  ret").unwrap();
    assert_eq!(
        tokens,
        vec![
            Token::Operator(Operator::Nop, at(1, 1)),
            Token::Newline(at(1, 5)),
            Token::Newline(at(2, 1)),
            Token::Operator(Operator::Ret, at(3, 3)),
        ]
    );
}

#[test]
fn comment_runs_to_the_end_of_its_line() {
    let tokens = Tokenizer::tokenize("; one\nret ; two\n; three").unwrap();
    assert_eq!(
        tokens,
        vec![
            Token::Newline(at(1, 6)),
            Token::Operator(Operator::Ret, at(2, 1)),
            Token::Newline(at(2, 10)),
        ]
    );
}

#[test]
fn number_ends_at_a_terminator_which_is_read_again() {
    let tokens = Tokenizer::tokenize("12,0FFh;x\n7\n").unwrap();
    assert_eq!(
        tokens,
        vec![
            Token::Number("12".to_string(), at(1, 1)),
            Token::Comma(at(1, 3)),
            Token::Number("0FFh".to_string(), at(1, 4)),
            Token::Newline(at(1, 10)),
            Token::Number("7".to_string(), at(2, 1)),
            Token::Newline(at(2, 2)),
        ]
    );
}

#[test]
fn number_terminator_that_opens_no_token_is_refused() {
    // `-` ends the number, and is then refused between tokens.
    assert_eq!(
        Tokenizer::tokenize("5-3"),
        Err(TokenizerError::UnexpectedCharacter(at(1, 2), '-'))
    );
    assert_eq!(
        Tokenizer::tokenize("5*3"),
        Err(TokenizerError::UnexpectedCharacter(at(1, 2), '*'))
    );
    assert_eq!(
        Tokenizer::tokenize("5/3"),
        Err(TokenizerError::UnexpectedCharacter(at(1, 2), '/'))
    );
}

#[test]
fn bracket_right_after_a_number_is_refused() {
    assert_eq!(
        Tokenizer::tokenize("[20h]"),
        Err(TokenizerError::UnexpectedCharacter(at(1, 5), ']'))
    );
    assert!(Tokenizer::tokenize("[20h ]").is_ok());
}

#[test]
fn stray_characters_are_refused() {
    assert_eq!(
        Tokenizer::tokenize("mov P3, #0AAh\nret\n"),
        Err(TokenizerError::UnexpectedCharacter(at(1, 9), '#'))
    );
    assert_eq!(
        Tokenizer::tokenize("ret\n  $"),
        Err(TokenizerError::UnexpectedCharacter(at(2, 3), '$'))
    );
}

#[test]
fn newline_within_a_string_is_refused() {
    assert_eq!(
        Tokenizer::tokenize("\"ab\ncd\""),
        Err(TokenizerError::UnexpectedCharacter(at(1, 4), '\n'))
    );
}

#[test]
fn every_escape_is_decoded() {
    let tokens = Tokenizer::tokenize("\"\\r\\n\\t\\\\\\\"\"").unwrap();
    assert_eq!(tokens, vec![Token::String("\r\n\t\\\"".to_string(), at(1, 1))]);
}

#[test]
fn end_of_input_gives_the_pending_token() {
    assert_eq!(
        Tokenizer::tokenize("12h").unwrap(),
        vec![Token::Number("12h".to_string(), at(1, 1))]
    );
    assert_eq!(
        Tokenizer::tokenize("sjmp").unwrap(),
        vec![Token::Operator(Operator::Sjmp, at(1, 1))]
    );
    assert_eq!(
        Tokenizer::tokenize("\"open").unwrap(),
        vec![Token::String("open".to_string(), at(1, 1))]
    );
    assert_eq!(
        Tokenizer::tokenize("\"open\\").unwrap(),
        vec![Token::String("open".to_string(), at(1, 1))]
    );
    assert_eq!(Tokenizer::tokenize("; only a comment").unwrap(), vec![]);
    assert_eq!(Tokenizer::tokenize("   ").unwrap(), vec![]);
}

#[test]
fn characters_one_at_a_time_give_the_same_tokens() {
    let text = "start: sjmp start ; loop\n";
    let mut tokenizer = Tokenizer::new();
    for c in text.chars() {
        assert_eq!(tokenizer.consume_char(c), Ok(()));
    }
    tokenizer.flush();
    let mut whole = Tokenizer::new();
    assert_eq!(whole.consume_text(text), Ok(()));
    whole.flush();
    let expected = Tokenizer::tokenize(text).unwrap();
    assert_eq!(expected.len(), 5);
    let mut again = Tokenizer::new();
    assert_eq!(again.consume_text("start: sjmp"), Ok(()));
    assert_eq!(again.consume_text(" start ; loop\n"), Ok(()));
    again.flush();
    assert_eq!(tokenizer.get_tokens(), expected);
    assert_eq!(whole.get_tokens(), expected);
    assert_eq!(again.get_tokens(), expected);
    assert_eq!(
        expected,
        vec![
            Token::Identifier("start".to_string(), at(1, 1)),
            Token::Colon(at(1, 6)),
            Token::Operator(Operator::Sjmp, at(1, 8)),
            Token::Identifier("start".to_string(), at(1, 13)),
            Token::Newline(at(1, 25)),
        ]
    );
}

#[test]
fn token_kinds_and_texts() {
    let tokens = Tokenizer::tokenize("x 1 : , . @ + [ ] \n").unwrap();
    assert!(tokens[0].is_identifier());
    assert!(!tokens[0].is_number());
    assert!(tokens[1].is_number());
    assert!(tokens[2].is_colon());
    assert!(tokens[3].is_comma());
    assert!(tokens[4].is_dot());
    assert!(tokens[5].is_at());
    assert!(tokens[6].is_plus());
    assert!(tokens[7].is_left_bracket());
    assert!(tokens[8].is_right_bracket());
    assert!(tokens[9].is_newline());
    assert!(!tokens[9].is_colon());
    assert_eq!(tokens[0].get_string(), Some("x".to_string()));
    assert_eq!(tokens[1].get_string(), Some("1".to_string()));
    assert_eq!(tokens[2].get_string(), None);
    assert_eq!(tokens[5].get_position(), at(1, 11));
    assert_eq!(tokens[9].get_position(), at(1, 19));
}
