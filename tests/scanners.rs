use rado::chars::str_chars;
use rado::lexer::next_token;
use rado::scan::{lex_num_lit, lex_string_lit, skip_block_comment};
use rado::{LexerError, Sign, Sym, Tok};

#[test]
fn block_comment_skipper_returns_index_past_close() {
    let s = str_chars("/* a /* b */ c */ rest");
    assert_eq!(Ok(17), skip_block_comment(&s, 0));
    let s = str_chars("x/**/y");
    assert_eq!(Ok(5), skip_block_comment(&s, 1));
    let s = str_chars("/* /* */");
    assert_eq!(Err(LexerError::UnterminatedBlockComment), skip_block_comment(&s, 0));
}

#[test]
fn numeric_reader_parts() {
    let s = str_chars("12.5+");
    assert_eq!(Ok(("12".to_string(), Some("5".to_string()), 4)), lex_num_lit(&s, 0));
    let s = str_chars("7.x");
    assert_eq!(Ok(("7".to_string(), None, 1)), lex_num_lit(&s, 0));
    let s = str_chars("-3é");
    assert_eq!(Err(LexerError::NumericLiteralSuffix), lex_num_lit(&s, 1));
}

#[test]
fn string_reader_parts() {
    let s = str_chars("\"plain\" tail");
    assert_eq!(Ok(("plain".to_string(), 7)), lex_string_lit(&s, 1));
    let s = str_chars("\"a\\\\b\\\"c\" tail");
    assert_eq!(Ok(("a\\b\"c".to_string(), 9)), lex_string_lit(&s, 1));
    let s = str_chars("\"a\\x\"");
    assert_eq!(Err(LexerError::UnrecognizedEscapeSequence('x')), lex_string_lit(&s, 1));
}

#[test]
fn one_step_of_the_driver() {
    let s = str_chars("=> 5");
    assert_eq!(Ok((Some(Tok::Sym(Sym::DoubleArrow)), 2)), next_token(&s, 0));
    assert_eq!(Ok((None, 3)), next_token(&s, 2));
    assert_eq!(Ok((Some(Tok::Num(Sign::Positive, "5".to_string(), None)), 4)), next_token(&s, 3));
    let s = str_chars("// note\nx");
    assert_eq!(Ok((None, 8)), next_token(&s, 0));
}

#[test]
fn escapes_are_checked_before_the_closing_quote() {
    let s = str_chars("\\q");
    assert_eq!(Err(LexerError::UnrecognizedEscapeSequence('q')), lex_string_lit(&s, 0));
    let s = str_chars("\"\\q");
    assert_eq!(Err(LexerError::UnrecognizedEscapeSequence('q')), lex_string_lit(&s, 1));
    let s = str_chars("\"\\n");
    assert_eq!(Err(LexerError::UnterminatedStringLiteral), lex_string_lit(&s, 1));
    let s = str_chars("\"abc");
    assert_eq!(Err(LexerError::UnterminatedStringLiteral), lex_string_lit(&s, 1));
}
