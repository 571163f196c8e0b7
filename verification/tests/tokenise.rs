use tokeniser::lexer::Lexer;
use tokeniser::token::{Token, TokenType};
use tokeniser::diag::{TokenisationError, TokenisationErrorKind};

fn lex(src: &str) -> Result<Vec<Token>, TokenisationError> {
    let mut lexer = Lexer::new("test.src".to_string(), src.to_string());
    lexer.tokenise()
}

fn kinds(src: &str) -> Vec<TokenType> {
    lex(src).unwrap().into_iter().map(|t| t.token_type).collect()
}

#[test]
fn empty_source_yields_no_tokens() {
    assert_eq!(lex("").unwrap(), vec![]);
}

#[test]
fn whitespace_only_yields_no_tokens() {
    assert_eq!(lex("   ").unwrap(), vec![]);
    assert_eq!(lex(" \t\r ").unwrap(), vec![]);
    assert_eq!(lex(" \n \t\n\r\n").unwrap(), vec![]);
}

#[test]
fn integer_literal() {
    let tokens = lex("42").unwrap();
    assert_eq!(tokens.len(), 1);
    assert_eq!(tokens[0].token_type, TokenType::Int(42));
    assert_eq!(tokens[0].line, 1);
    assert_eq!(tokens[0].column, 3);
    assert_eq!(tokens[0].index, 2);
    assert_eq!(tokens[0].length, 2);
    assert_eq!(tokens[0].filename, "test.src");
}

#[test]
fn negative_integer_is_one_token() {
    let tokens = lex("-7").unwrap();
    assert_eq!(tokens.len(), 1);
    assert_eq!(tokens[0].token_type, TokenType::Int(-7));
    assert_eq!(tokens[0].length, 1);
    assert_eq!(tokens[0].column, 3);
    assert_eq!(tokens[0].index, 2);
}

#[test]
fn largest_integers_parse() {
    assert_eq!(kinds("9223372036854775807"), vec![TokenType::Int(i64::MAX)]);
    assert_eq!(kinds("-9223372036854775807"), vec![TokenType::Int(-i64::MAX)]);
}

#[test]
fn integer_overflow_is_reported() {
    let err = lex("9223372036854775808").unwrap_err();
    assert_eq!(err.kind, TokenisationErrorKind::NumericLiteralOverflow);
    let err = lex("-9223372036854775808").unwrap_err();
    assert_eq!(err.kind, TokenisationErrorKind::NumericLiteralOverflow);
}

#[test]
fn float_literal_carries_its_text() {
    let tokens = lex("1.5").unwrap();
    assert_eq!(tokens.len(), 1);
    assert_eq!(tokens[0].token_type, TokenType::Float("1.5".to_string()));
    assert_eq!(tokens[0].length, 3);
}

#[test]
fn negative_float_is_one_signed_token() {
    assert_eq!(kinds("-2.5"), vec![TokenType::Float("-2.5".to_string())]);
}

#[test]
fn trailing_decimal_point_is_a_float() {
    assert_eq!(kinds("3."), vec![TokenType::Float("3.".to_string())]);
}

#[test]
fn two_char_operators_are_single_tokens() {
    assert_eq!(kinds("**"), vec![TokenType::OpPow]);
    assert_eq!(kinds("=="), vec![TokenType::OpEq]);
    assert_eq!(kinds(">="), vec![TokenType::OpGe]);
    assert_eq!(kinds("<="), vec![TokenType::OpLe]);
    assert_eq!(kinds("!="), vec![TokenType::OpNe]);
    assert_eq!(kinds("&&"), vec![TokenType::OpAnd]);
    assert_eq!(kinds("||"), vec![TokenType::OpOr]);
    assert_eq!(kinds("=>"), vec![TokenType::Arrow]);
    assert_eq!(kinds(".."), vec![TokenType::Range]);
}

#[test]
fn greedy_match_takes_the_longest_first() {
    assert_eq!(kinds("==="), vec![TokenType::OpEq, TokenType::OpAssign]);
}

#[test]
fn single_char_operators() {
    assert_eq!(
        kinds("+ - * / % , . ! = < > ( ) { }"),
        vec![
            TokenType::OpAdd,
            TokenType::OpSub,
            TokenType::OpMul,
            TokenType::OpDiv,
            TokenType::OpMod,
            TokenType::Comma,
            TokenType::Dot,
            TokenType::OpNot,
            TokenType::OpAssign,
            TokenType::OpLt,
            TokenType::OpGt,
            TokenType::LParen,
            TokenType::RParen,
            TokenType::LBrace,
            TokenType::RBrace,
        ]
    );
}

#[test]
fn range_between_integers() {
    assert_eq!(
        kinds("1..5"),
        vec![TokenType::Int(1), TokenType::Range, TokenType::Int(5)]
    );
}

#[test]
fn string_escapes_shrink_to_their_characters() {
    let tokens = lex("\"a\\nb\"").unwrap();
    assert_eq!(tokens.len(), 1);
    assert_eq!(tokens[0].token_type, TokenType::Str("a\nb".to_string()));
    assert_eq!(tokens[0].length, 5);
}

#[test]
fn all_escapes_round_trip() {
    let tokens = lex("\"\\n\\r\\t\\0\\'\\\"\\\\\"").unwrap();
    assert_eq!(
        tokens[0].token_type,
        TokenType::Str("\n\r\t\0'\"\\".to_string())
    );
    assert_eq!(tokens[0].length, 9);
}

#[test]
fn keywords_take_precedence_over_identifiers() {
    let tokens = lex("return").unwrap();
    assert_eq!(tokens.len(), 1);
    assert_eq!(tokens[0].token_type, TokenType::KWReturn);
}

#[test]
fn longer_identifier_is_not_a_keyword() {
    assert_eq!(
        kinds("returning"),
        vec![TokenType::Ident("returning".to_string())]
    );
}

#[test]
fn the_whole_keyword_table() {
    assert_eq!(
        kinds("if else for return break continue in true false"),
        vec![
            TokenType::KWIf,
            TokenType::KWElse,
            TokenType::KWFor,
            TokenType::KWReturn,
            TokenType::KWBreak,
            TokenType::KWContinue,
            TokenType::KWIn,
            TokenType::Bool(true),
            TokenType::Bool(false),
        ]
    );
}

#[test]
fn tokenising_twice_is_identical() {
    let src = "for i in 1..10 { x = x + \"ab\\tc\" } => != 3.5 -2";
    let first = lex(src).unwrap();
    let second = lex(src).unwrap();
    assert_eq!(first, second);
}

#[test]
fn minus_before_digit_folds_even_after_an_expression() {
    assert_eq!(
        kinds("a-5"),
        vec![TokenType::Ident("a".to_string()), TokenType::Int(-5)]
    );
}

#[test]
fn minus_before_space_is_subtraction() {
    assert_eq!(
        kinds("a - 5"),
        vec![
            TokenType::Ident("a".to_string()),
            TokenType::OpSub,
            TokenType::Int(5),
        ]
    );
}

#[test]
fn positions_track_lines_and_columns() {
    let tokens = lex("ab c\nde").unwrap();
    assert_eq!(tokens.len(), 3);
    assert_eq!((tokens[0].line, tokens[0].column, tokens[0].index), (1, 3, 2));
    assert_eq!((tokens[1].line, tokens[1].column, tokens[1].index), (1, 5, 4));
    assert_eq!((tokens[2].line, tokens[2].column, tokens[2].index), (2, 3, 7));
}

#[test]
fn lexer_splits_lines_for_diagnostics() {
    let lexer = Lexer::new("test.src".to_string(), "a\r\nb\nc".to_string());
    assert_eq!(lexer.lines, vec!["a".to_string(), "b".to_string(), "c".to_string()]);
    assert_eq!(lexer.index, 0);
    assert_eq!(lexer.line, 1);
    assert_eq!(lexer.column, 1);
}

#[test]
fn lone_minus_is_subtraction() {
    assert_eq!(kinds("-"), vec![TokenType::OpSub]);
}

#[test]
fn float_with_suffix_is_rejected() {
    let err = lex("1.5x").unwrap_err();
    assert_eq!(err.kind, TokenisationErrorKind::InvalidNumericSuffix);
    assert_eq!(err.message, "Unexpected character in numeric literal: x");
}

#[test]
fn newline_inside_string_joins_the_value() {
    let tokens = lex("\"a\nb\" 1").unwrap();
    assert_eq!(tokens[0].token_type, TokenType::Str("a\nb".to_string()));
    // The string scanner consumes the newline without advancing the
    // line counter, so what follows still counts as the first line.
    assert_eq!(tokens[1].token_type, TokenType::Int(1));
    assert_eq!(tokens[1].line, 1);
}

#[test]
fn unicode_text_passes_through_strings() {
    let tokens = lex("\"h\u{e9}\u{e9}\"").unwrap();
    assert_eq!(tokens[0].token_type, TokenType::Str("h\u{e9}\u{e9}".to_string()));
    assert_eq!(tokens[0].length, 5);
}
