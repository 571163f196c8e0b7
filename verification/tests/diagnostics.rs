use tokeniser::diag::{TokenisationError, TokenisationErrorKind};
use tokeniser::lexer::Lexer;
use tokeniser::token::Token;

fn lex(src: &str) -> Result<Vec<Token>, TokenisationError> {
    let mut lexer = Lexer::new("test.src".to_string(), src.to_string());
    lexer.tokenise()
}

#[test]
fn numeric_suffix_is_rejected() {
    let err = lex("12a").unwrap_err();
    assert_eq!(err.kind, TokenisationErrorKind::InvalidNumericSuffix);
    assert_eq!(err.message, "Unexpected character in numeric literal: a");
    assert_eq!(err.line, 1);
    assert_eq!(err.column, 3);
    assert_eq!(err.index, 2);
    assert_eq!(err.line_context, "12a");
}

#[test]
fn second_decimal_point_is_rejected() {
    let err = lex("1.2.3").unwrap_err();
    assert_eq!(err.kind, TokenisationErrorKind::MalformedFloat);
    assert_eq!(
        err.message,
        "Illegal second decimal point in float literal: '.'"
    );
    assert_eq!(err.column, 4);
}

#[test]
fn unterminated_string_is_rejected() {
    let err = lex("\"abc").unwrap_err();
    assert_eq!(err.kind, TokenisationErrorKind::UnterminatedString);
    assert_eq!(err.message, "Unterminated string literal");
    assert_eq!(err.index, 4);
}

#[test]
fn identifier_suffix_is_rejected() {
    let err = lex("if#").unwrap_err();
    assert_eq!(err.kind, TokenisationErrorKind::InvalidIdentifierSuffix);
    assert_eq!(err.message, "Unexpected character in identifier: #");
}

#[test]
fn unknown_escape_is_rejected() {
    let err = lex("\"\\q\"").unwrap_err();
    assert_eq!(err.kind, TokenisationErrorKind::InvalidEscapeSequence);
    assert_eq!(err.message, "Invalid escape sequence: \\q");
}

#[test]
fn unexpected_character_at_dispatch_keeps_its_position() {
    let err = lex("@").unwrap_err();
    assert_eq!(err.kind, TokenisationErrorKind::UnexpectedCharacter);
    assert_eq!(err.message, "Unexpected character: @");
    assert_eq!(err.column, 1);
    assert_eq!(err.index, 0);
}

#[test]
fn lone_ampersand_is_unexpected_past_its_position() {
    let err = lex("&").unwrap_err();
    assert_eq!(err.kind, TokenisationErrorKind::UnexpectedCharacter);
    assert_eq!(err.message, "Unexpected character: &");
    assert_eq!(err.column, 2);
    assert_eq!(err.index, 1);
}

#[test]
fn lone_pipe_is_unexpected() {
    let err = lex("x | y").unwrap_err();
    assert_eq!(err.kind, TokenisationErrorKind::UnexpectedCharacter);
    assert_eq!(err.message, "Unexpected character: |");
}

#[test]
fn errors_carry_the_offending_line() {
    let err = lex("ok\n1.2.3").unwrap_err();
    assert_eq!(err.line, 2);
    assert_eq!(err.line_context, "1.2.3");
    assert_eq!(err.filename, "test.src");
}

#[test]
fn render_underlines_the_column() {
    let err = lex("@").unwrap_err();
    assert_eq!(
        err.render(),
        "Failed to tokenise file \"test.src\" [1;1] (0): Unexpected character: @\n\n@\n^"
    );
}

#[test]
fn render_pads_up_to_the_column() {
    let err = lex("12 1.2.3").unwrap_err();
    assert_eq!(err.column, 7);
    assert_eq!(
        err.render(),
        "Failed to tokenise file \"test.src\" [1;7] (6): Illegal second decimal point in float literal: '.'\n\n12 1.2.3\n      ^"
    );
}

#[test]
fn first_error_aborts_the_pass() {
    let err = lex("1 2 @ 3").unwrap_err();
    assert_eq!(err.kind, TokenisationErrorKind::UnexpectedCharacter);
}

#[test]
fn scanner_stops_exactly_where_it_fails() {
    // A failing pass leaves the cursor at the error's own position:
    // nothing is consumed past it.
    let mut lexer = Lexer::new("test.src".to_string(), "12 & 34".to_string());
    let err = lexer.tokenise().unwrap_err();
    assert_eq!(err.kind, TokenisationErrorKind::UnexpectedCharacter);
    assert_eq!((lexer.index, lexer.line, lexer.column), (err.index, err.line, err.column));
    assert_eq!(lexer.index, 4);
}
