//! Tests of the lexer.
use tinyscript::compilation::{Lexer, TokenKind};
use tinyscript::EnumTable;

const SHOULD_NOT_HAPPEN: &str = "should not happen";

fn lexing_token(input: &str, expected: TokenKind) {
    let mut enums = EnumTable::new();
    enums.insert("RED".to_string(), 0);
    let mut lexer = Lexer::new(&enums, input);
    assert_eq!(
        lexer
            .next()
            .expect(SHOULD_NOT_HAPPEN)
            .expect(SHOULD_NOT_HAPPEN)
            .kind,
        expected
    );
    assert!(lexer.next().is_none());
}

fn lexing_tokens(tokens: &str) {
    let enums = EnumTable::new();
    let mut lexer = Lexer::new(&enums, tokens);
    assert_eq!(
        lexer
            .next()
            .expect(SHOULD_NOT_HAPPEN)
            .expect(SHOULD_NOT_HAPPEN)
            .kind,
        TokenKind::ColonEqual
    );
    assert_eq!(
        lexer
            .next()
            .expect(SHOULD_NOT_HAPPEN)
            .expect(SHOULD_NOT_HAPPEN)
            .kind,
        TokenKind::Equal
    );
    assert_eq!(
        lexer
            .next()
            .expect(SHOULD_NOT_HAPPEN)
            .expect(SHOULD_NOT_HAPPEN)
            .kind,
        TokenKind::Plus
    );
    assert_eq!(
        lexer
            .next()
            .expect(SHOULD_NOT_HAPPEN)
            .expect(SHOULD_NOT_HAPPEN)
            .kind,
        TokenKind::Minus
    );
    assert_eq!(
        lexer
            .next()
            .expect(SHOULD_NOT_HAPPEN)
            .expect(SHOULD_NOT_HAPPEN)
            .kind,
        TokenKind::Star
    );
    assert_eq!(
        lexer
            .next()
            .expect(SHOULD_NOT_HAPPEN)
            .expect(SHOULD_NOT_HAPPEN)
            .kind,
        TokenKind::Slash
    );
    assert_eq!(
        lexer
            .next()
            .expect(SHOULD_NOT_HAPPEN)
            .expect(SHOULD_NOT_HAPPEN)
            .kind,
        TokenKind::PlusEqual
    );
    assert_eq!(
        lexer
            .next()
            .expect(SHOULD_NOT_HAPPEN)
            .expect(SHOULD_NOT_HAPPEN)
            .kind,
        TokenKind::MinusEqual
    );
    assert_eq!(
        lexer
            .next()
            .expect(SHOULD_NOT_HAPPEN)
            .expect(SHOULD_NOT_HAPPEN)
            .kind,
        TokenKind::StarEqual
    );
    assert_eq!(
        lexer
            .next()
            .expect(SHOULD_NOT_HAPPEN)
            .expect(SHOULD_NOT_HAPPEN)
            .kind,
        TokenKind::SlashEqual
    );
    assert_eq!(
        lexer
            .next()
            .expect(SHOULD_NOT_HAPPEN)
            .expect(SHOULD_NOT_HAPPEN)
            .kind,
        TokenKind::Semicolon
    );
    assert_eq!(
        lexer
            .next()
            .expect(SHOULD_NOT_HAPPEN)
            .expect(SHOULD_NOT_HAPPEN)
            .kind,
        TokenKind::Bang
    );
    assert_eq!(
        lexer
            .next()
            .expect(SHOULD_NOT_HAPPEN)
            .expect(SHOULD_NOT_HAPPEN)
            .kind,
        TokenKind::Ampersand
    );
    assert_eq!(
        lexer
            .next()
            .expect(SHOULD_NOT_HAPPEN)
            .expect(SHOULD_NOT_HAPPEN)
            .kind,
        TokenKind::Pipe
    );
    assert_eq!(
        lexer
            .next()
            .expect(SHOULD_NOT_HAPPEN)
            .expect(SHOULD_NOT_HAPPEN)
            .kind,
        TokenKind::Caret
    );
    assert_eq!(
        lexer
            .next()
            .expect(SHOULD_NOT_HAPPEN)
            .expect(SHOULD_NOT_HAPPEN)
            .kind,
        TokenKind::Tilde
    );
    assert_eq!(
        lexer
            .next()
            .expect(SHOULD_NOT_HAPPEN)
            .expect(SHOULD_NOT_HAPPEN)
            .kind,
        TokenKind::And
    );
    assert_eq!(
        lexer
            .next()
            .expect(SHOULD_NOT_HAPPEN)
            .expect(SHOULD_NOT_HAPPEN)
            .kind,
        TokenKind::Or
    );
    assert_eq!(
        lexer
            .next()
            .expect(SHOULD_NOT_HAPPEN)
            .expect(SHOULD_NOT_HAPPEN)
            .kind,
        TokenKind::EqualEqual
    );
    assert_eq!(
        lexer
            .next()
            .expect(SHOULD_NOT_HAPPEN)
            .expect(SHOULD_NOT_HAPPEN)
            .kind,
        TokenKind::BangEqual
    );
    assert_eq!(
        lexer
            .next()
            .expect(SHOULD_NOT_HAPPEN)
            .expect(SHOULD_NOT_HAPPEN)
            .kind,
        TokenKind::Less
    );
    assert_eq!(
        lexer
            .next()
            .expect(SHOULD_NOT_HAPPEN)
            .expect(SHOULD_NOT_HAPPEN)
            .kind,
        TokenKind::LessEqual
    );
    assert_eq!(
        lexer
            .next()
            .expect(SHOULD_NOT_HAPPEN)
            .expect(SHOULD_NOT_HAPPEN)
            .kind,
        TokenKind::Greater
    );
    assert_eq!(
        lexer
            .next()
            .expect(SHOULD_NOT_HAPPEN)
            .expect(SHOULD_NOT_HAPPEN)
            .kind,
        TokenKind::GreaterEqual
    );
    assert_eq!(
        lexer
            .next()
            .expect(SHOULD_NOT_HAPPEN)
            .expect(SHOULD_NOT_HAPPEN)
            .kind,
        TokenKind::Colon
    );
    assert_eq!(
        lexer
            .next()
            .expect(SHOULD_NOT_HAPPEN)
            .expect(SHOULD_NOT_HAPPEN)
            .kind,
        TokenKind::QMark
    );
    assert_eq!(
        lexer
            .next()
            .expect(SHOULD_NOT_HAPPEN)
            .expect(SHOULD_NOT_HAPPEN)
            .kind,
        TokenKind::LeftParen
    );
    assert_eq!(
        lexer
            .next()
            .expect(SHOULD_NOT_HAPPEN)
            .expect(SHOULD_NOT_HAPPEN)
            .kind,
        TokenKind::RightParen
    );
    assert!(lexer.next().is_none());
    assert!(lexer.next().is_none());
}

#[test]
fn lexing_single_tokens() {
    lexing_token("=", TokenKind::Equal);
    lexing_token(":", TokenKind::Colon);
    lexing_token(":=", TokenKind::ColonEqual);
    lexing_token("+", TokenKind::Plus);
    lexing_token("+=", TokenKind::PlusEqual);
    lexing_token("-", TokenKind::Minus);
    lexing_token("-=", TokenKind::MinusEqual);
    lexing_token("*", TokenKind::Star);
    lexing_token("*=", TokenKind::StarEqual);
    lexing_token("/", TokenKind::Slash);
    lexing_token("/=", TokenKind::SlashEqual);
    lexing_token(";", TokenKind::Semicolon);
    lexing_token("&", TokenKind::Ampersand);
    lexing_token("|", TokenKind::Pipe);
    lexing_token("^", TokenKind::Caret);
    lexing_token("~", TokenKind::Tilde);
    lexing_token("&&", TokenKind::And);
    lexing_token("||", TokenKind::Or);
    lexing_token("!", TokenKind::Bang);
    lexing_token("!=", TokenKind::BangEqual);
    lexing_token("==", TokenKind::EqualEqual);
    lexing_token("<", TokenKind::Less);
    lexing_token("<=", TokenKind::LessEqual);
    lexing_token(">", TokenKind::Greater);
    lexing_token(">=", TokenKind::GreaterEqual);
    lexing_token("?", TokenKind::QMark);
    lexing_token("(", TokenKind::LeftParen);
    lexing_token(")", TokenKind::RightParen);
    lexing_token("nil", TokenKind::Nil);
    lexing_token("true", TokenKind::True);
    lexing_token("false", TokenKind::False);
    lexing_token("print", TokenKind::Print);
    lexing_token("A", TokenKind::Ident);
    lexing_token("3.14", TokenKind::FloatNumber);
    lexing_token("0xff", TokenKind::HexNumber);
    lexing_token("3", TokenKind::IntNumber);
    lexing_token("'test'", TokenKind::String);
    lexing_token("RED", TokenKind::Enum);
}

#[test]
fn lexing() {
    let tokens = ":= = + - * / += -= *= /= ; ! & | ^ ~ && || == != < <= > >= : ? ( )";
    lexing_tokens(tokens);
    let tokens2 = ":==+-*/+=-=*=/=;!&|^~&&||==!=<<=>>=:?()";
    lexing_tokens(tokens2);
}

#[test]
fn lexing_keywords() {
    let tokens = "true false print";
    let enums = EnumTable::new();
    let mut lexer = Lexer::new(&enums, tokens);
    assert_eq!(
        lexer
            .next()
            .expect(SHOULD_NOT_HAPPEN)
            .expect(SHOULD_NOT_HAPPEN)
            .kind,
        TokenKind::True
    );
    assert_eq!(
        lexer
            .next()
            .expect(SHOULD_NOT_HAPPEN)
            .expect(SHOULD_NOT_HAPPEN)
            .kind,
        TokenKind::False
    );
    assert_eq!(
        lexer
            .next()
            .expect(SHOULD_NOT_HAPPEN)
            .expect(SHOULD_NOT_HAPPEN)
            .kind,
        TokenKind::Print
    );
    assert!(lexer.next().is_none());
    assert!(lexer.next().is_none());
}

#[test]
fn lexing_idents() {
    let tokens = "a_name _another_name _aThirdName_";
    let enums = EnumTable::new();
    let mut lexer = Lexer::new(&enums, tokens);
    assert_eq!(
        lexer
            .next()
            .expect(SHOULD_NOT_HAPPEN)
            .expect(SHOULD_NOT_HAPPEN)
            .kind,
        TokenKind::Ident
    );
    assert_eq!(
        lexer
            .next()
            .expect(SHOULD_NOT_HAPPEN)
            .expect(SHOULD_NOT_HAPPEN)
            .kind,
        TokenKind::Ident
    );
    assert_eq!(
        lexer
            .next()
            .expect(SHOULD_NOT_HAPPEN)
            .expect(SHOULD_NOT_HAPPEN)
            .kind,
        TokenKind::Ident
    );
    assert!(lexer.next().is_none());
    assert!(lexer.next().is_none());
}

#[test]
fn lexing_numbers() {
    let tokens = "123 123.0 123.456 0.123 0x123";
    let enums = EnumTable::new();
    let mut lexer = Lexer::new(&enums, tokens);
    assert_eq!(
        lexer
            .next()
            .expect(SHOULD_NOT_HAPPEN)
            .expect(SHOULD_NOT_HAPPEN)
            .kind,
        TokenKind::IntNumber
    );
    assert_eq!(
        lexer
            .next()
            .expect(SHOULD_NOT_HAPPEN)
            .expect(SHOULD_NOT_HAPPEN)
            .kind,
        TokenKind::FloatNumber
    );
    assert_eq!(
        lexer
            .next()
            .expect(SHOULD_NOT_HAPPEN)
            .expect(SHOULD_NOT_HAPPEN)
            .kind,
        TokenKind::FloatNumber
    );
    assert_eq!(
        lexer
            .next()
            .expect(SHOULD_NOT_HAPPEN)
            .expect(SHOULD_NOT_HAPPEN)
            .kind,
        TokenKind::FloatNumber
    );
    assert_eq!(
        lexer
            .next()
            .expect(SHOULD_NOT_HAPPEN)
            .expect(SHOULD_NOT_HAPPEN)
            .kind,
        TokenKind::HexNumber
    );
    assert!(lexer.next().is_none());
    assert!(lexer.next().is_none());
}

#[test]
fn lexing_hex() {
    let tokens = "0x123 0xABC 0xabc 0xa1b2c3";
    let enums = EnumTable::new();
    let mut lexer = Lexer::new(&enums, tokens);
    assert_eq!(
        lexer
            .next()
            .expect(SHOULD_NOT_HAPPEN)
            .expect(SHOULD_NOT_HAPPEN)
            .kind,
        TokenKind::HexNumber
    );
    assert_eq!(
        lexer
            .next()
            .expect(SHOULD_NOT_HAPPEN)
            .expect(SHOULD_NOT_HAPPEN)
            .kind,
        TokenKind::HexNumber
    );
    assert_eq!(
        lexer
            .next()
            .expect(SHOULD_NOT_HAPPEN)
            .expect(SHOULD_NOT_HAPPEN)
            .kind,
        TokenKind::HexNumber
    );
    assert_eq!(
        lexer
            .next()
            .expect(SHOULD_NOT_HAPPEN)
            .expect(SHOULD_NOT_HAPPEN)
            .kind,
        TokenKind::HexNumber
    );
    assert!(lexer.next().is_none());
    assert!(lexer.next().is_none());
}

#[test]
fn lexing_strings() {
    let tokens = "'teststring' 'another_string'";
    let enums = EnumTable::new();
    let mut lexer = Lexer::new(&enums, tokens);
    assert_eq!(
        lexer
            .next()
            .expect(SHOULD_NOT_HAPPEN)
            .expect(SHOULD_NOT_HAPPEN)
            .kind,
        TokenKind::String
    );
    assert_eq!(
        lexer
            .next()
            .expect(SHOULD_NOT_HAPPEN)
            .expect(SHOULD_NOT_HAPPEN)
            .kind,
        TokenKind::String
    );
    assert!(lexer.next().is_none());
    assert!(lexer.next().is_none());
}

#[test]
fn lexing_enums() {
    let tokens = "First SECOND Third";
    let mut enums = EnumTable::new();
    enums.insert("First".into(), 1);
    enums.insert("SECOND".into(), 2);
    enums.insert("Third".into(), 3);

    let mut lexer = Lexer::new(&enums, tokens);
    assert_eq!(
        lexer
            .next()
            .expect(SHOULD_NOT_HAPPEN)
            .expect(SHOULD_NOT_HAPPEN)
            .kind,
        TokenKind::Enum
    );
    assert_eq!(
        lexer
            .next()
            .expect(SHOULD_NOT_HAPPEN)
            .expect(SHOULD_NOT_HAPPEN)
            .kind,
        TokenKind::Enum
    );
    assert_eq!(
        lexer
            .next()
            .expect(SHOULD_NOT_HAPPEN)
            .expect(SHOULD_NOT_HAPPEN)
            .kind,
        TokenKind::Enum
    );
    assert!(lexer.next().is_none());
    assert!(lexer.next().is_none());
}
