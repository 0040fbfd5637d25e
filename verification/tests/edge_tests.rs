use cadence_front::lexer::Lexer;
use cadence_front::token::{Token, TokenKind, Keyword, Type};
use cadence_front::parser::{BacktrackingParser, Error};
use cadence_front::ast::Node;

fn parse(code: &str) -> Result<Node, Error> {
    let mut lexer = Lexer::new(code);
    let tokens = lexer.tokenize_all();
    let mut parser = BacktrackingParser::new(&tokens);
    parser.expression()
}

#[test]
fn test_reparse_same_tokens_is_deterministic() {
    let code = "1 ?? 2 + destroy a * (3 << 4)";
    let mut lexer = Lexer::new(code);
    let tokens = lexer.tokenize_all();
    let mut first = BacktrackingParser::new(&tokens);
    let mut second = BacktrackingParser::new(&tokens);
    let a = first.expression().unwrap();
    let b = second.expression().unwrap();
    assert_eq!(a, b);
    assert_eq!(a.render(), b.render());
}

#[test]
fn test_reparse_same_source_is_deterministic() {
    let code = "-1*-2+destroy a";
    let a = parse(code).unwrap();
    let b = parse(code).unwrap();
    assert_eq!(a, b);
    assert_eq!(a.render(), b.render());
}

#[test]
fn test_auth_without_ref_fails() {
    let mut lexer = Lexer::new("auth a");
    let tokens = lexer.tokenize_all();
    let mut parser = BacktrackingParser::new(&tokens);
    let r = parser.type_annotation();
    assert!(matches!(r, Err(Error::ParseError(_))));
}

#[test]
fn test_expression_on_empty_input_is_eof() {
    let mut lexer = Lexer::new("");
    let tokens = lexer.tokenize_all();
    assert!(tokens.is_empty());
    let mut parser = BacktrackingParser::new(&tokens);
    assert_eq!(parser.expression(), Err(Error::EOF));
}

#[test]
fn test_wrong_token_is_parse_error() {
    assert!(matches!(parse(") 1"), Err(Error::ParseError(_))));
}

#[test]
fn test_unclosed_paren_is_eof() {
    assert_eq!(parse("(1+2"), Err(Error::EOF));
}

#[test]
fn test_keyword_table() {
    assert_eq!(Keyword::from("let"), Some(Keyword::Let));
    assert_eq!(Keyword::from("execute"), Some(Keyword::Execute));
    assert_eq!(Keyword::from("as"), Some(Keyword::As));
    assert_eq!(Keyword::from("letx"), None);
    assert_eq!(Keyword::from(""), None);
}

#[test]
fn test_type_table() {
    assert_eq!(Type::from("UInt64"), Some(Type::UInt64));
    assert_eq!(Type::from("AnyResource"), Some(Type::AnyResource));
    assert_eq!(Type::from("RestrictionOfResources"), Some(Type::RestrictionOfResources));
    assert_eq!(Type::from("uint64"), None);
}

#[test]
fn test_token_constructors() {
    let t = Token::new(TokenKind::Plus, 3, 2);
    assert_eq!(t.kind, TokenKind::Plus);
    assert_eq!(t.at, 3);
    assert_eq!(t.size, 2);
    let c = Token::new_c(TokenKind::Comma, 7);
    assert_eq!(c.kind, TokenKind::Comma);
    assert_eq!(c.size, 1);
    let n = Token::new_none(2, 4);
    assert_eq!(n.kind, TokenKind::Unrecognized);
    assert_eq!(n.at, 2);
    assert_eq!(n.size, 4);
}

#[test]
fn test_lexer_peekn() {
    let lexer = Lexer::new("abc");
    assert_eq!(lexer.peekn(0), Some(b'a'));
    assert_eq!(lexer.peekn(2), Some(b'c'));
    assert_eq!(lexer.peekn(3), None);
}

#[test]
fn test_unterminated_string_yields_delimiter() {
    let mut lexer = Lexer::new("\"abc");
    assert_eq!(lexer.tokenize().kind, TokenKind::DoubleQuote);
    assert_eq!(lexer.tokenize().kind, TokenKind::EOF);
}

#[test]
fn test_unterminated_block_comment_runs_to_end() {
    let mut lexer = Lexer::new("+/* no end");
    assert_eq!(lexer.tokenize().kind, TokenKind::Plus);
    assert_eq!(lexer.tokenize().kind, TokenKind::EOF);
}

#[test]
fn test_block_comment_closed_by_second_star() {
    let mut lexer = Lexer::new("/*x**/+");
    assert_eq!(lexer.tokenize().kind, TokenKind::Plus);
    assert_eq!(lexer.tokenize().kind, TokenKind::EOF);
}

#[test]
fn test_escape_decoding_through_tokenize() {
    let mut lexer = Lexer::new("\"a\\nb\"");
    assert_eq!(lexer.tokenize().kind, TokenKind::String("a\nb".to_string()));
}

#[test]
fn test_unrecognized_escape_keeps_backslash() {
    let mut lexer = Lexer::new("\"a\\qb\"");
    assert_eq!(lexer.tokenize().kind, TokenKind::String("a\\b".to_string()));
}

#[test]
fn test_token_offsets_cover_consumed_bytes() {
    let mut lexer = Lexer::new("  ab +");
    let first = lexer.tokenize();
    assert_eq!(first.kind, TokenKind::Identifier("ab".to_string()));
    assert_eq!(first.at, 0);
    assert_eq!(first.size, 4);
    let second = lexer.tokenize();
    assert_eq!(second.kind, TokenKind::Plus);
    assert_eq!(second.at, 4);
    assert_eq!(second.size, 2);
}

#[test]
fn test_casting_chain_renders() {
    let ast = parse("a as? B").unwrap();
    assert_eq!(ast.render(), "AsQuestion{id(a), Type{B}}");
    let ast = parse("a as! B").unwrap();
    assert_eq!(ast.render(), "AsExclamation{id(a), Type{B}}");
}

#[test]
fn test_string_terminal_renders() {
    let ast = parse("\"hi\"").unwrap();
    assert_eq!(ast.render(), "str(hi)");
}
