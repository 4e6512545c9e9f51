use dumbc::lexer::{lex, Token};

#[test]
fn test_lexer() {
    let code = "int main() { return 42; }";
    let tokens = lex(code).unwrap();

    assert_eq!(
        &tokens,
        &[
            Token::KeywordInt,
            Token::Identifier("main".into()),
            Token::LParen,
            Token::RParen,
            Token::LBrace,
            Token::KeywordReturn,
            Token::IntLiteral(42),
            Token::Semicolon,
            Token::RBrace,
        ]
    );
}

#[test]
fn test_lexer_whitespace_variants() {
    let code = " int\tmain (  ) { \nreturn\t42 ; } ";
    let tokens = lex(code).unwrap();

    assert_eq!(
        &tokens,
        &[
            Token::KeywordInt,
            Token::Identifier("main".into()),
            Token::LParen,
            Token::RParen,
            Token::LBrace,
            Token::KeywordReturn,
            Token::IntLiteral(42),
            Token::Semicolon,
            Token::RBrace,
        ]
    );
}

#[test]
fn test_lexer_unknown_symbol() {
    let code = "int main() { return 42$; }";
    let result = lex(code);
    assert!(result.is_err());
}

#[test]
fn test_lexer_identifier_with_underscore() {
    let code = "int _main_123() { return 1; }";
    let tokens = lex(code).unwrap();

    assert_eq!(
        &tokens,
        &[
            Token::KeywordInt,
            Token::Identifier("_main_123".into()),
            Token::LParen,
            Token::RParen,
            Token::LBrace,
            Token::KeywordReturn,
            Token::IntLiteral(1),
            Token::Semicolon,
            Token::RBrace,
        ]
    );
}

#[test]
fn test_lexer_comments_and_operators() {
    let code = "a /* skip */ >>= b // rest\n + 3";
    let tokens = lex(code).unwrap();
    assert_eq!(
        &tokens,
        &[
            Token::Identifier("a".into()),
            Token::ShiftRightEqual,
            Token::Identifier("b".into()),
            Token::Plus,
            Token::IntLiteral(3),
        ]
    );
}

#[test]
fn test_lexer_unterminated_block_comment() {
    assert!(lex("int x; /* no end").is_err());
}

#[test]
fn test_lexer_integer_overflow() {
    assert!(lex("int main() { return 99999999999; }").is_err());
    assert!(lex("int main() { return 2147483647; }").is_ok());
}
