use tokeniser::ast::AST;
use tokeniser::lexer::Lexer;
use tokeniser::parser::Parser;
use tokeniser::token::TokenType;

#[test]
fn empty_token_sequence_parses_to_an_empty_tree() {
    let mut parser = Parser::new(vec![], vec![]);
    let ast = parser.parse().unwrap();
    assert!(ast.nodes.is_empty());
}

#[test]
fn any_token_is_unexpected_for_now() {
    let mut lexer = Lexer::new("test.src".to_string(), "42".to_string());
    let tokens = lexer.tokenise().unwrap();
    let mut parser = Parser::new(tokens, vec!["42".to_string()]);
    let err = parser.parse().unwrap_err();
    assert_eq!(err.message, "Unexpected token: Int");
    assert_eq!(err.line, 1);
    assert_eq!(err.column, 3);
    assert_eq!(err.index, 2);
    assert_eq!(err.token_size, 2);
    assert_eq!(err.line_context, "42");
}

#[test]
fn parsing_error_render_underlines_the_token() {
    let mut lexer = Lexer::new("test.src".to_string(), "42".to_string());
    let tokens = lexer.tokenise().unwrap();
    let mut parser = Parser::new(tokens, vec!["42".to_string()]);
    let err = parser.parse().unwrap_err();
    assert_eq!(
        err.render(),
        "Parsing failed: Unexpected token: Int\n --> test.src:1:3 (2)\n\n   42\n   ~~"
    );
}

#[test]
fn kind_names_are_stable() {
    assert_eq!(TokenType::OpPow.kind_name(), "OpPow");
    assert_eq!(TokenType::Ident("x".to_string()).kind_name(), "Ident");
    assert_eq!(TokenType::EOF.kind_name(), "EOF");
}

#[test]
fn a_fresh_tree_is_empty() {
    let ast = AST::new();
    assert_eq!(ast.nodes.len(), 0);
}
