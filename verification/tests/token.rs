use tokenizer::lexer::text::{characters, spells, terminated_characters};
use tokenizer::lexer::token::{Token, TokenType};

fn kind(literal: &str, is_string: bool) -> TokenType {
    Token::new(literal.to_string(), is_string, 1, 1).token_type
}

#[test]
fn a_token_keeps_what_it_was_made_of() {
    let t = Token::new("abc".to_string(), false, 7, 9);
    assert_eq!(t.token_type, TokenType::IDENT("abc".to_string()));
    assert_eq!(t.literal, "abc");
    assert_eq!(t.line, 7);
    assert_eq!(t.column, 9);
}

#[test]
fn the_empty_literal_is_the_end_of_input() {
    assert_eq!(kind("", false), TokenType::EOF);
}

#[test]
fn string_content_is_a_string_whatever_it_holds() {
    for s in ["", "if", "==", "12", "a b", "\u{e9}"] {
        assert_eq!(kind(s, true), TokenType::STRING(s.to_string()));
    }
}

#[test]
fn operators_and_delimiters_are_looked_up() {
    assert_eq!(kind("=", false), TokenType::ASSIGN);
    assert_eq!(kind("+", false), TokenType::PLUS);
    assert_eq!(kind("-", false), TokenType::MINUS);
    assert_eq!(kind("!", false), TokenType::BANG);
    assert_eq!(kind("*", false), TokenType::ASTERISK);
    assert_eq!(kind("/", false), TokenType::SLASH);
    assert_eq!(kind("<", false), TokenType::LT);
    assert_eq!(kind(">", false), TokenType::GT);
    assert_eq!(kind("==", false), TokenType::EQ);
    assert_eq!(kind("!=", false), TokenType::NOT_EQ);
    assert_eq!(kind(",", false), TokenType::COMMA);
    assert_eq!(kind(";", false), TokenType::SEMICOLON);
    assert_eq!(kind("(", false), TokenType::LPAREN);
    assert_eq!(kind(")", false), TokenType::RPAREN);
    assert_eq!(kind("{", false), TokenType::LBRACE);
    assert_eq!(kind("}", false), TokenType::RBRACE);
}

#[test]
fn keywords_are_looked_up() {
    assert_eq!(kind("fn", false), TokenType::FUNCTION);
    assert_eq!(kind("let", false), TokenType::LET);
    assert_eq!(kind("true", false), TokenType::TRUE);
    assert_eq!(kind("false", false), TokenType::FALSE);
    assert_eq!(kind("if", false), TokenType::IF);
    assert_eq!(kind("else", false), TokenType::ELSE);
    assert_eq!(kind("return", false), TokenType::RETURN);
}

#[test]
fn runs_of_letters_are_identifiers() {
    for s in ["x", "ifx", "i", "fnn", "_", "__a_B", "Return"] {
        assert_eq!(kind(s, false), TokenType::IDENT(s.to_string()));
    }
}

#[test]
fn runs_of_digits_are_integers() {
    for s in ["0", "5", "10", "0042", "18446744073709551616"] {
        assert_eq!(kind(s, false), TokenType::INT(s.to_string()));
    }
}

#[test]
fn anything_else_is_illegal() {
    for s in ["@", "#", "a1", "1a", "a b", " ", "<=", "===", "\"", "\u{e9}", "\u{661}", "-1"] {
        assert_eq!(kind(s, false), TokenType::ILLEGAL, "literal {:?}", s);
    }
}

#[test]
fn characters_of_a_text() {
    assert_eq!(characters(""), Vec::<char>::new());
    assert_eq!(characters("a\u{e9}\u{1f600}b"), vec!['a', '\u{e9}', '\u{1f600}', 'b']);
}

#[test]
fn characters_with_an_end_mark() {
    assert_eq!(terminated_characters(""), vec![None]);
    assert_eq!(terminated_characters("ab"), vec![Some('a'), Some('b'), None]);
}

#[test]
fn spelling_a_word() {
    let chars = vec!['i', 'f'];
    assert!(spells(&chars, "if"));
    assert!(!spells(&chars, "i"));
    assert!(!spells(&chars, "ifx"));
    assert!(!spells(&chars, "of"));
    assert!(!spells(&chars, ""));
    assert!(spells(&Vec::new(), ""));
    assert!(!spells(&Vec::new(), "a"));
}
