use sphinx_lang::debug::Span;
use sphinx_lang::lexer::{
    CommentRule, ExactRule, Lexer, LexerError, LexerErrorType, SingleCharRule, Token, TokenOut,
};
use sphinx_lang::lexer::LexerBuilder;

fn expect_token(lexer: &mut Lexer, token: Token, index: u64, length: u64, lineno: u64) {
    let out = lexer.next_token().unwrap();
    assert_eq!(
        out,
        TokenOut { token, location: Span { index, length }, lineno },
        "unexpected output: {:?}",
        out
    );
}

fn expect_error(lexer: &mut Lexer, etype: LexerErrorType, index: u64, length: u64, lineno: u64) {
    let out = lexer.next_token().unwrap_err();
    assert_eq!(
        out,
        LexerError { etype, location: Span { index, length }, lineno },
        "unexpected output: {:?}",
        out
    );
}

#[test]
fn lexer_matches_tokens_1() {
    let source = "foobar";
    let mut lexer = LexerBuilder::new()
        .add_rule(ExactRule::new(Token::IntegerLiteral(0), "foo"))
        .add_rule(ExactRule::new(Token::IntegerLiteral(1), "bar"))
        .add_rule(ExactRule::new(Token::IntegerLiteral(2), "baz"))
        .build(source);
    expect_token(&mut lexer, Token::IntegerLiteral(0), 0, 3, 1);
    expect_token(&mut lexer, Token::IntegerLiteral(1), 3, 3, 1);
    expect_token(&mut lexer, Token::EOF, 6, 0, 1);
}

#[test]
fn lexer_skips_whitespace() {
    let source = "  foo   bar";
    let mut lexer = LexerBuilder::new()
        .add_rule(ExactRule::new(Token::IntegerLiteral(1), "foo"))
        .add_rule(ExactRule::new(Token::IntegerLiteral(2), "bar"))
        .build(source);
    expect_token(&mut lexer, Token::IntegerLiteral(1), 2, 3, 1);
    expect_token(&mut lexer, Token::IntegerLiteral(2), 8, 3, 1);
}

#[test]
fn lexer_tracks_line_numbers() {
    let source = " \nfoo \n\n  bar";
    let mut lexer = LexerBuilder::new()
        .add_rule(ExactRule::new(Token::IntegerLiteral(1), "foo"))
        .add_rule(ExactRule::new(Token::IntegerLiteral(2), "bar"))
        .build(source);
    expect_token(&mut lexer, Token::IntegerLiteral(1), 2, 3, 2);
    expect_token(&mut lexer, Token::IntegerLiteral(2), 10, 3, 4);
}

#[test]
fn single_char_rule_matches_chars_and_dont_match_invalid() {
    let source = "a bcd";
    let mut lexer = LexerBuilder::new()
        .add_rule(SingleCharRule::new(Token::IntegerLiteral(1), 'a'))
        .add_rule(SingleCharRule::new(Token::IntegerLiteral(2), 'b'))
        .add_rule(SingleCharRule::new(Token::IntegerLiteral(3), 'c'))
        .build(source);
    expect_token(&mut lexer, Token::IntegerLiteral(1), 0, 1, 1);
    expect_token(&mut lexer, Token::IntegerLiteral(2), 2, 1, 1);
    expect_token(&mut lexer, Token::IntegerLiteral(3), 3, 1, 1);
    expect_error(&mut lexer, LexerErrorType::NoMatchingRule, 4, 1, 1);
    expect_token(&mut lexer, Token::EOF, 5, 0, 1);
}

#[test]
fn rule_substring_tokens_match_1() {
    let source = "a ab abc";
    let mut lexer = LexerBuilder::new()
        .add_rule(SingleCharRule::new(Token::IntegerLiteral(0), 'a'))
        .add_rule(ExactRule::new(Token::IntegerLiteral(1), "ab"))
        .add_rule(ExactRule::new(Token::IntegerLiteral(2), "abc"))
        .build(source);
    expect_token(&mut lexer, Token::IntegerLiteral(0), 0, 1, 1);
    expect_token(&mut lexer, Token::IntegerLiteral(1), 2, 2, 1);
    expect_token(&mut lexer, Token::IntegerLiteral(2), 5, 3, 1);
    expect_token(&mut lexer, Token::EOF, 8, 0, 1);
}

#[test]
fn rule_substring_tokens_match_2() {
    let source = "a aab";
    let mut lexer = LexerBuilder::new()
        .add_rule(SingleCharRule::new(Token::IntegerLiteral(0), 'a'))
        .add_rule(ExactRule::new(Token::IntegerLiteral(1), "ab"))
        .add_rule(ExactRule::new(Token::IntegerLiteral(2), "abc"))
        .build(source);
    expect_token(&mut lexer, Token::IntegerLiteral(0), 0, 1, 1);
    expect_token(&mut lexer, Token::IntegerLiteral(0), 2, 1, 1);
    expect_token(&mut lexer, Token::IntegerLiteral(1), 3, 2, 1);
    expect_token(&mut lexer, Token::EOF, 5, 0, 1);
}

#[test]
fn rule_substring_tokens_match_eof() {
    let source = "+\n +";
    let mut lexer = LexerBuilder::new()
        .add_rule(SingleCharRule::new(Token::IntegerLiteral(0), '+'))
        .add_rule(ExactRule::new(Token::IntegerLiteral(1), "+="))
        .build(source);
    expect_token(&mut lexer, Token::IntegerLiteral(0), 0, 1, 1);
    expect_token(&mut lexer, Token::IntegerLiteral(0), 3, 1, 2);
    expect_token(&mut lexer, Token::EOF, 4, 0, 2);
}

#[test]
fn lexer_test_matches_tokens_2() {
    let source = "and +or ";
    let mut lexer = LexerBuilder::new()
        .add_rule(SingleCharRule::new(Token::IntegerLiteral(0), '+'))
        .add_rule(ExactRule::new(Token::IntegerLiteral(1), "or"))
        .add_rule(ExactRule::new(Token::IntegerLiteral(2), "and"))
        .add_rule(ExactRule::new(Token::IntegerLiteral(3), "+="))
        .build(source);
    expect_token(&mut lexer, Token::IntegerLiteral(2), 0, 3, 1);
    expect_token(&mut lexer, Token::IntegerLiteral(0), 4, 1, 1);
    expect_token(&mut lexer, Token::IntegerLiteral(1), 5, 2, 1);
    expect_token(&mut lexer, Token::EOF, 8, 0, 1);
}

#[test]
fn lexer_error_invalid_token() {
    let source = "foo +bar bad baz";
    let mut lexer = LexerBuilder::new()
        .add_rule(SingleCharRule::new(Token::IntegerLiteral(0), '+'))
        .add_rule(ExactRule::new(Token::IntegerLiteral(1), "foo"))
        .add_rule(ExactRule::new(Token::IntegerLiteral(2), "bar"))
        .add_rule(ExactRule::new(Token::IntegerLiteral(3), "baz"))
        .build(source);
    expect_token(&mut lexer, Token::IntegerLiteral(1), 0, 3, 1);
    expect_token(&mut lexer, Token::IntegerLiteral(0), 4, 1, 1);
    expect_token(&mut lexer, Token::IntegerLiteral(2), 5, 3, 1);
    expect_error(&mut lexer, LexerErrorType::NoMatchingRule, 9, 3, 1);
    expect_token(&mut lexer, Token::IntegerLiteral(3), 13, 3, 1);
    expect_token(&mut lexer, Token::EOF, 16, 0, 1);
}

#[test]
fn lexer_error_ambiguous_match() {
    let source = " + ";
    let mut lexer = LexerBuilder::new()
        .add_rule(SingleCharRule::new(Token::IntegerLiteral(0), '+'))
        .add_rule(ExactRule::new(Token::IntegerLiteral(1), "+"))
        .build(source);
    expect_error(&mut lexer, LexerErrorType::AmbiguousMatch, 1, 1, 1);
    expect_token(&mut lexer, Token::EOF, 3, 0, 1);
}

#[test]
fn lexer_text_comments() {
    let source = "foo #bar\n    \n    #\n    # baz bad foo boo\n    \n    ";
    let mut lexer = LexerBuilder::new()
        .add_rule(SingleCharRule::new(Token::IntegerLiteral(0), '+'))
        .add_rule(ExactRule::new(Token::IntegerLiteral(1), "foo"))
        .add_rule(ExactRule::new(Token::IntegerLiteral(2), "bar"))
        .add_rule(ExactRule::new(Token::IntegerLiteral(3), "baz"))
        .add_rule(CommentRule::new('#'))
        .build(source);
    expect_token(&mut lexer, Token::IntegerLiteral(1), 0, 3, 1);
    expect_token(&mut lexer, Token::Comment, 4, 5, 1);
    expect_token(&mut lexer, Token::Comment, 18, 2, 3);
    expect_token(&mut lexer, Token::Comment, 24, 18, 4);
    expect_token(&mut lexer, Token::EOF, 51, 0, 6);
}
