use rusty_ruby::cursor::Cursor;
use rusty_ruby::lexer::{
    lookup_identifier, read_assign_or_equal, read_bang_or_not_equal, read_identifier, read_number,
    Lexer,
};
use rusty_ruby::parser::Parser;
use rusty_ruby::text::{same_text, single};
use rusty_ruby::token::{Token, TokenKind};

fn rest(cursor: &mut Cursor) -> String {
    let mut out = String::new();
    while let Some(c) = cursor.next() {
        out.push(c);
    }
    out
}

#[test]
fn single_holds_one_character() {
    assert_eq!(single('+'), "+");
    assert_eq!(single('é'), "é");
    assert_eq!(single('\n'), "\n");
}

#[test]
fn same_text_compares_every_character() {
    assert!(same_text("", ""));
    assert!(same_text("return", "return"));
    assert!(!same_text("return", "returns"));
    assert!(!same_text("returns", "return"));
    assert!(!same_text("def", "end"));
    assert!(!same_text("", "a"));
    assert!(!same_text("a", ""));
    assert!(same_text("añb", "añb"));
    assert!(!same_text("añb", "anb"));
}

#[test]
fn cursor_peek_does_not_consume() {
    let mut cursor = Cursor::new("ab");
    assert_eq!(cursor.peek(), Some('a'));
    assert_eq!(cursor.peek(), Some('a'));
    assert_eq!(cursor.next(), Some('a'));
    assert_eq!(cursor.peek(), Some('b'));
    assert_eq!(cursor.next(), Some('b'));
    assert_eq!(cursor.peek(), None);
    assert_eq!(cursor.next(), None);
    assert_eq!(cursor.next(), None);
}

#[test]
fn cursor_over_nothing_is_at_its_end() {
    let mut cursor = Cursor::new("");
    assert_eq!(cursor.peek(), None);
    assert_eq!(cursor.next(), None);
}

#[test]
fn cursor_moves_by_characters_not_bytes() {
    let mut cursor = Cursor::new("é=");
    assert_eq!(cursor.next(), Some('é'));
    assert_eq!(cursor.next(), Some('='));
    assert_eq!(cursor.next(), None);
}

#[test]
fn read_identifier_leaves_the_rest() {
    let mut cursor = Cursor::new("five = 5");
    assert_eq!(read_identifier(&mut cursor), "five");
    assert_eq!(rest(&mut cursor), " = 5");
}

#[test]
fn read_identifier_takes_underscores_and_stops_at_digits() {
    let mut cursor = Cursor::new("boolean_result1");
    assert_eq!(read_identifier(&mut cursor), "boolean_result");
    assert_eq!(rest(&mut cursor), "1");
}

#[test]
fn read_identifier_of_no_word_is_empty() {
    let mut cursor = Cursor::new("5x");
    assert_eq!(read_identifier(&mut cursor), "");
    assert_eq!(rest(&mut cursor), "5x");
    let mut cursor = Cursor::new("");
    assert_eq!(read_identifier(&mut cursor), "");
}

#[test]
fn read_identifier_runs_to_the_end() {
    let mut cursor = Cursor::new("abc");
    assert_eq!(read_identifier(&mut cursor), "abc");
    assert_eq!(cursor.peek(), None);
}

#[test]
fn read_number_leaves_the_rest() {
    let mut cursor = Cursor::new("123abc");
    assert_eq!(read_number(&mut cursor), "123");
    assert_eq!(rest(&mut cursor), "abc");
}

#[test]
fn read_number_of_no_digit_is_empty() {
    let mut cursor = Cursor::new("x1");
    assert_eq!(read_number(&mut cursor), "");
    assert_eq!(rest(&mut cursor), "x1");
}

#[test]
fn read_number_runs_to_the_end() {
    let mut cursor = Cursor::new("10");
    assert_eq!(read_number(&mut cursor), "10");
    assert_eq!(cursor.next(), None);
}

#[test]
fn read_assign_or_equal_consumes_what_it_returns() {
    let mut cursor = Cursor::new("== 8");
    assert_eq!(read_assign_or_equal(&mut cursor), Token::Equal("==".to_string()));
    assert_eq!(rest(&mut cursor), " 8");
    let mut cursor = Cursor::new("= 8");
    assert_eq!(read_assign_or_equal(&mut cursor), Token::Assign("=".to_string()));
    assert_eq!(rest(&mut cursor), " 8");
    let mut cursor = Cursor::new("=");
    assert_eq!(read_assign_or_equal(&mut cursor), Token::Assign("=".to_string()));
    assert_eq!(cursor.peek(), None);
}

#[test]
fn read_bang_or_not_equal_consumes_what_it_returns() {
    let mut cursor = Cursor::new("!= 5");
    assert_eq!(read_bang_or_not_equal(&mut cursor), Token::NotEqual("!=".to_string()));
    assert_eq!(rest(&mut cursor), " 5");
    let mut cursor = Cursor::new("!(5 < 10)");
    assert_eq!(read_bang_or_not_equal(&mut cursor), Token::Bang("!".to_string()));
    assert_eq!(rest(&mut cursor), "(5 < 10)");
    let mut cursor = Cursor::new("!");
    assert_eq!(read_bang_or_not_equal(&mut cursor), Token::Bang("!".to_string()));
    assert_eq!(cursor.peek(), None);
}

#[test]
fn lookup_identifier_knows_the_seven_keywords() {
    assert_eq!(lookup_identifier("return".to_string()), Token::Return("return".to_string()));
    assert_eq!(lookup_identifier("def".to_string()), Token::Method("def".to_string()));
    assert_eq!(lookup_identifier("end".to_string()), Token::End("end".to_string()));
    assert_eq!(lookup_identifier("if".to_string()), Token::If("if".to_string()));
    assert_eq!(lookup_identifier("else".to_string()), Token::Else("else".to_string()));
    assert_eq!(lookup_identifier("true".to_string()), Token::True("true".to_string()));
    assert_eq!(lookup_identifier("false".to_string()), Token::False("false".to_string()));
}

#[test]
fn lookup_identifier_takes_any_other_word_as_identifier() {
    assert_eq!(lookup_identifier("add".to_string()), Token::Ident("add".to_string()));
    assert_eq!(lookup_identifier("retur".to_string()), Token::Ident("retur".to_string()));
    assert_eq!(lookup_identifier("TRUE".to_string()), Token::Ident("TRUE".to_string()));
    assert_eq!(lookup_identifier("".to_string()), Token::Ident("".to_string()));
}

#[test]
fn token_kind_and_literal() {
    let token = Token::NotEqual("!=".to_string());
    assert_eq!(token.kind(), TokenKind::NotEqual);
    assert_eq!(token.literal(), "!=");
    let token = Token::Ident("five".to_string());
    assert_eq!(token.kind(), TokenKind::Ident);
    assert_eq!(token.literal(), "five");
    let token = Token::Whitespace("\n".to_string());
    assert_eq!(token.kind(), TokenKind::Whitespace);
    assert_eq!(token.literal(), "\n");
}

#[test]
fn tokens_are_equal_by_kind_and_text() {
    assert_eq!(Token::Plus("+".to_string()), Token::Plus("+".to_string()));
    assert_ne!(Token::Plus("+".to_string()), Token::Minus("+".to_string()));
    assert_ne!(Token::Ident("a".to_string()), Token::Ident("b".to_string()));
    assert_ne!(Token::Ident("if".to_string()), Token::If("if".to_string()));
    assert_ne!(Token::Integer("1".to_string()), Token::Integer("01".to_string()));
}

#[test]
fn parser_is_made_over_a_lexer() {
    let lexer = Lexer::new(&"x = 1".to_string());
    let _parser = Parser::new(lexer);
}
