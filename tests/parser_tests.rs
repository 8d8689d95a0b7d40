use hubstry_iso_code::lexer::{Lexer, Token};
use hubstry_iso_code::parser::Parser;

#[test]
fn test_lexer_compliance_prefix() {
    let mut lexer = Lexer::new("// S.O.S: A security function\nfunction test() {}".to_string());
    assert_eq!(lexer.next_token(), Token::CompliancePrefix("S.O.S".to_string()));
    // The lexer should now see the newline after processing the comment line
    assert_eq!(lexer.next_token(), Token::Newline);
    assert_eq!(lexer.next_token(), Token::Function);
}

#[test]
fn test_parser_compliance_statement() {
    let mut parser = Parser::new("S.O.S let secure_var = 'test';".to_string());
    let result = parser.parse();
    assert!(!result.ast.children.is_empty());
}
