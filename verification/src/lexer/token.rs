//! Tokens and how a piece of source text is classified.

use crate::lexer::text::{characters, spells};
use crate::utils::{digit, is_digit_char, is_letter_char, letter};
use vstd::prelude::*;
use vstd::string::*;

verus! {

/// The classes of tokens.
#[allow(non_camel_case_types)]
#[derive(Debug, Clone, PartialEq, Eq)]
pub enum TokenType {
    ILLEGAL,
    EOF,
    IDENT(String),
    INT(String),
    STRING(String),
    ASSIGN,
    PLUS,
    MINUS,
    BANG,
    ASTERISK,
    SLASH,
    LT,
    GT,
    EQ,
    NOT_EQ,
    COMMA,
    SEMICOLON,
    LPAREN,
    RPAREN,
    LBRACE,
    RBRACE,
    FUNCTION,
    LET,
    TRUE,
    FALSE,
    IF,
    ELSE,
    RETURN,
}

/// The mathematical value of a [`TokenType`]: the same classes, with the
/// text that a class carries as a sequence of characters.
pub ghost enum TokenKind {
    Illegal,
    EndOfInput,
    Identifier(Seq<char>),
    Integer(Seq<char>),
    Text(Seq<char>),
    Assign,
    Plus,
    Minus,
    Bang,
    Asterisk,
    Slash,
    Less,
    Greater,
    Equal,
    NotEqual,
    Comma,
    Semicolon,
    LeftParen,
    RightParen,
    LeftBrace,
    RightBrace,
    Function,
    Let,
    True,
    False,
    If,
    Else,
    Return,
}

impl View for TokenType {
    type V = TokenKind;

    open spec fn view(&self) -> TokenKind {
        match self {
            TokenType::ILLEGAL => TokenKind::Illegal,
            TokenType::EOF => TokenKind::EndOfInput,
            TokenType::IDENT(s) => TokenKind::Identifier(s@),
            TokenType::INT(s) => TokenKind::Integer(s@),
            TokenType::STRING(s) => TokenKind::Text(s@),
            TokenType::ASSIGN => TokenKind::Assign,
            TokenType::PLUS => TokenKind::Plus,
            TokenType::MINUS => TokenKind::Minus,
            TokenType::BANG => TokenKind::Bang,
            TokenType::ASTERISK => TokenKind::Asterisk,
            TokenType::SLASH => TokenKind::Slash,
            TokenType::LT => TokenKind::Less,
            TokenType::GT => TokenKind::Greater,
            TokenType::EQ => TokenKind::Equal,
            TokenType::NOT_EQ => TokenKind::NotEqual,
            TokenType::COMMA => TokenKind::Comma,
            TokenType::SEMICOLON => TokenKind::Semicolon,
            TokenType::LPAREN => TokenKind::LeftParen,
            TokenType::RPAREN => TokenKind::RightParen,
            TokenType::LBRACE => TokenKind::LeftBrace,
            TokenType::RBRACE => TokenKind::RightBrace,
            TokenType::FUNCTION => TokenKind::Function,
            TokenType::LET => TokenKind::Let,
            TokenType::TRUE => TokenKind::True,
            TokenType::FALSE => TokenKind::False,
            TokenType::IF => TokenKind::If,
            TokenType::ELSE => TokenKind::Else,
            TokenType::RETURN => TokenKind::Return,
        }
    }
}

/// The class of an operator or a delimiter, if `literal` is one.
pub open spec fn symbol_kind(literal: Seq<char>) -> Option<TokenKind> {
    if literal == "="@ {
        Some(TokenKind::Assign)
    } else if literal == "+"@ {
        Some(TokenKind::Plus)
    } else if literal == "-"@ {
        Some(TokenKind::Minus)
    } else if literal == "!"@ {
        Some(TokenKind::Bang)
    } else if literal == "*"@ {
        Some(TokenKind::Asterisk)
    } else if literal == "/"@ {
        Some(TokenKind::Slash)
    } else if literal == "<"@ {
        Some(TokenKind::Less)
    } else if literal == ">"@ {
        Some(TokenKind::Greater)
    } else if literal == "=="@ {
        Some(TokenKind::Equal)
    } else if literal == "!="@ {
        Some(TokenKind::NotEqual)
    } else if literal == ","@ {
        Some(TokenKind::Comma)
    } else if literal == ";"@ {
        Some(TokenKind::Semicolon)
    } else if literal == "("@ {
        Some(TokenKind::LeftParen)
    } else if literal == ")"@ {
        Some(TokenKind::RightParen)
    } else if literal == "{"@ {
        Some(TokenKind::LeftBrace)
    } else if literal == "}"@ {
        Some(TokenKind::RightBrace)
    } else {
        None
    }
}

/// The class of a keyword, if `literal` is one.
pub open spec fn keyword_kind(literal: Seq<char>) -> Option<TokenKind> {
    if literal == "fn"@ {
        Some(TokenKind::Function)
    } else if literal == "let"@ {
        Some(TokenKind::Let)
    } else if literal == "true"@ {
        Some(TokenKind::True)
    } else if literal == "false"@ {
        Some(TokenKind::False)
    } else if literal == "if"@ {
        Some(TokenKind::If)
    } else if literal == "else"@ {
        Some(TokenKind::Else)
    } else if literal == "return"@ {
        Some(TokenKind::Return)
    } else {
        None
    }
}

/// A text has the shape of an identifier when it is a run of one or more
/// letters.
pub open spec fn identifier_shaped(literal: Seq<char>) -> bool {
    literal.len() > 0 && forall|i: int| 0 <= i < literal.len() ==> letter(#[trigger] literal[i])
}

/// A text has the shape of a number when it is a run of one or more digits.
pub open spec fn number_shaped(literal: Seq<char>) -> bool {
    literal.len() > 0 && forall|i: int| 0 <= i < literal.len() ==> digit(#[trigger] literal[i])
}

/// The class of a token, given the text it was scanned from and whether that
/// text was the content of a string literal.
///
/// The content of a string literal is always a string. Otherwise the empty
/// text marks the end of the input; operators and delimiters are looked up
/// first; a text shaped like an identifier is a keyword or else an
/// identifier; a run of digits is an integer; anything else is illegal.
pub open spec fn classify(literal: Seq<char>, is_string: bool) -> TokenKind {
    if is_string {
        TokenKind::Text(literal)
    } else if literal.len() == 0 {
        TokenKind::EndOfInput
    } else if symbol_kind(literal) is Some {
        symbol_kind(literal)->0
    } else if identifier_shaped(literal) {
        if keyword_kind(literal) is Some {
            keyword_kind(literal)->0
        } else {
            TokenKind::Identifier(literal)
        }
    } else if number_shaped(literal) {
        TokenKind::Integer(literal)
    } else {
        TokenKind::Illegal
    }
}

/// A classified piece of source text, with the place where it starts.
#[derive(Debug, Clone, PartialEq, Eq)]
pub struct Token {
    pub token_type: TokenType,
    pub literal: String,
    pub line: usize,
    pub column: usize,
}

/// The mathematical value of a [`Token`].
pub ghost struct TokenView {
    pub kind: TokenKind,
    pub literal: Seq<char>,
    pub line: nat,
    pub column: nat,
}

impl View for Token {
    type V = TokenView;

    open spec fn view(&self) -> TokenView {
        TokenView {
            kind: self.token_type@,
            literal: self.literal@,
            line: self.line as nat,
            column: self.column as nat,
        }
    }
}

impl TokenView {
    /// The token that `literal` gives rise to at the given place.
    pub open spec fn scanned(literal: Seq<char>, is_string: bool, line: nat, column: nat) -> TokenView {
        TokenView { kind: classify(literal, is_string), literal, line, column }
    }
}

fn symbol(chars: &Vec<char>) -> (r: Option<TokenType>)
    ensures
        match r {
            Some(t) => symbol_kind(chars@) == Some(t@),
            None => symbol_kind(chars@) is None,
        },
{
    if spells(chars, "=") {
        Some(TokenType::ASSIGN)
    } else if spells(chars, "+") {
        Some(TokenType::PLUS)
    } else if spells(chars, "-") {
        Some(TokenType::MINUS)
    } else if spells(chars, "!") {
        Some(TokenType::BANG)
    } else if spells(chars, "*") {
        Some(TokenType::ASTERISK)
    } else if spells(chars, "/") {
        Some(TokenType::SLASH)
    } else if spells(chars, "<") {
        Some(TokenType::LT)
    } else if spells(chars, ">") {
        Some(TokenType::GT)
    } else if spells(chars, "==") {
        Some(TokenType::EQ)
    } else if spells(chars, "!=") {
        Some(TokenType::NOT_EQ)
    } else if spells(chars, ",") {
        Some(TokenType::COMMA)
    } else if spells(chars, ";") {
        Some(TokenType::SEMICOLON)
    } else if spells(chars, "(") {
        Some(TokenType::LPAREN)
    } else if spells(chars, ")") {
        Some(TokenType::RPAREN)
    } else if spells(chars, "{") {
        Some(TokenType::LBRACE)
    } else if spells(chars, "}") {
        Some(TokenType::RBRACE)
    } else {
        None
    }
}

fn keyword(chars: &Vec<char>) -> (r: Option<TokenType>)
    ensures
        match r {
            Some(t) => keyword_kind(chars@) == Some(t@),
            None => keyword_kind(chars@) is None,
        },
{
    if spells(chars, "fn") {
        Some(TokenType::FUNCTION)
    } else if spells(chars, "let") {
        Some(TokenType::LET)
    } else if spells(chars, "true") {
        Some(TokenType::TRUE)
    } else if spells(chars, "false") {
        Some(TokenType::FALSE)
    } else if spells(chars, "if") {
        Some(TokenType::IF)
    } else if spells(chars, "else") {
        Some(TokenType::ELSE)
    } else if spells(chars, "return") {
        Some(TokenType::RETURN)
    } else {
        None
    }
}

fn is_identifier_shaped(chars: &Vec<char>) -> (r: bool)
    ensures
        r == identifier_shaped(chars@),
{
    let mut i: usize = 0;
    while i < chars.len()
        invariant
            i <= chars.len(),
            forall|j: int| 0 <= j < i ==> letter(#[trigger] chars@[j]),
        decreases chars.len() - i,
    {
        if !is_letter_char(chars[i]) {
            return false;
        }
        i += 1;
    }
    chars.len() > 0
}

fn is_number_shaped(chars: &Vec<char>) -> (r: bool)
    ensures
        r == number_shaped(chars@),
{
    let mut i: usize = 0;
    while i < chars.len()
        invariant
            i <= chars.len(),
            forall|j: int| 0 <= j < i ==> digit(#[trigger] chars@[j]),
        decreases chars.len() - i,
    {
        if !is_digit_char(chars[i]) {
            return false;
        }
        i += 1;
    }
    chars.len() > 0
}

impl Token {
    /// Makes the token for `literal`, found at `line` and `column`.
    /// `is_string` says that `literal` is the content of a string literal.
    pub fn new(literal: String, is_string: bool, line: usize, column: usize) -> (token: Token)
        ensures
            token@ == TokenView::scanned(literal@, is_string, line as nat, column as nat),
    {
        let token_type = if is_string {
            TokenType::STRING(literal.clone())
        } else {
            let chars = characters(literal.as_str());
            if chars.len() == 0 {
                TokenType::EOF
            } else {
                match symbol(&chars) {
                    Some(t) => t,
                    None => {
                        if is_identifier_shaped(&chars) {
                            match keyword(&chars) {
                                Some(t) => t,
                                None => TokenType::IDENT(literal.clone()),
                            }
                        } else if is_number_shaped(&chars) {
                            TokenType::INT(literal.clone())
                        } else {
                            TokenType::ILLEGAL
                        }
                    },
                }
            }
        };
        Token { token_type, literal, line, column }
    }
}

} // verus!
