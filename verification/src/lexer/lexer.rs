//! The scanner.

use crate::lexer::model::{blanks, char_at, digits, letters, run_end, unquoted, LexerState};
use crate::lexer::model::{column_after, lemma_step, newlines_in};
use crate::lexer::text::{terminated, terminated_characters};
use crate::lexer::token::Token;
use crate::utils::{is_digit_char, is_letter_char, is_whitespace_char};
use vstd::prelude::*;
use vstd::string::*;

verus! {

/// A scanner over a source text. It hands out the tokens of the text one by
/// one, and the end-of-input token from the end of the text on.
#[derive(Debug)]
pub struct Lexer {
    /// The source text.
    input: String,
    /// The characters of `input`, with an end mark behind them.
    buffer: Vec<Option<char>>,
    /// The index in `buffer` of the character that is read next.
    cursor: usize,
    /// The line of that character, counted from 1.
    line: usize,
    /// The column of that character, counted from 1.
    column: usize,
}

impl View for Lexer {
    type V = LexerState;

    closed spec fn view(&self) -> LexerState {
        LexerState {
            text: self.input@,
            cursor: self.cursor as int,
            line: self.line as nat,
            column: self.column as nat,
        }
    }
}

impl Clone for Lexer {
    /// A second scanner over the same text, at the same place.
    fn clone(&self) -> (lexer: Lexer)
        ensures
            lexer@ == self@,
    {
        proof {
            use_type_invariant(self);
        }
        let input = self.input.clone();
        let buffer = terminated_characters(input.as_str());
        Lexer { input, buffer, cursor: self.cursor, line: self.line, column: self.column }
    }
}

impl Lexer {
    /// The buffer holds the text, the cursor stands inside the buffer, and
    /// the line and the column are no further on than the cursor.
    #[verifier::type_invariant]
    spec fn inv(self) -> bool {
        &&& self.buffer@ == terminated(self.input@)
        &&& self.cursor < self.buffer.len()
        &&& 1 <= self.line <= self.cursor + 1
        &&& 1 <= self.column <= self.cursor + 1
    }

    /// Makes a scanner that stands at the start of `input`.
    pub fn new(input: String) -> (lexer: Lexer)
        ensures
            lexer@ == LexerState::initial(input@),
    {
        let buffer = terminated_characters(input.as_str());
        Lexer { input, buffer, cursor: 0, line: 1, column: 1 }
    }

    /// The character at `pos`, or nothing where the text has none.
    fn get_char(&self, pos: usize) -> (c: Option<char>)
        ensures
            c == char_at(self@.text, pos as int),
    {
        proof {
            use_type_invariant(self);
        }
        if pos < self.buffer.len() {
            self.buffer[pos]
        } else {
            None
        }
    }

    /// The character under the cursor.
    fn current_char(&self) -> (c: Option<char>)
        ensures
            c == self@.current(),
    {
        self.get_char(self.cursor)
    }

    /// The character behind the one under the cursor.
    fn peek_char(&self) -> (c: Option<char>)
        ensures
            c == self@.peek(),
    {
        proof {
            use_type_invariant(self);
        }
        self.get_char(self.cursor + 1)
    }

    /// Moves on by one character. At the end of the text nothing moves.
    fn read_char(&mut self)
        ensures
            final(self)@ == old(self)@.advance(),
    {
        proof {
            use_type_invariant(&*self);
        }
        if self.cursor + 1 < self.buffer.len() {
            self.cursor += 1;
            self.column += 1;
        }
    }

    /// Whether the scanner stands on a letter.
    fn at_letter(&self) -> (r: bool)
        ensures
            r == self@.at(letters()),
    {
        match self.current_char() {
            Some(c) => is_letter_char(c),
            None => false,
        }
    }

    /// Whether the scanner stands on a digit.
    fn at_digit(&self) -> (r: bool)
        ensures
            r == self@.at(digits()),
    {
        match self.current_char() {
            Some(c) => is_digit_char(c),
            None => false,
        }
    }

    /// Whether the scanner stands on whitespace.
    fn at_whitespace(&self) -> (r: bool)
        ensures
            r == self@.at(blanks()),
    {
        match self.current_char() {
            Some(c) => is_whitespace_char(c),
            None => false,
        }
    }

    /// Whether the scanner stands on a character other than the double quote.
    fn at_unquoted(&self) -> (r: bool)
        ensures
            r == self@.at(unquoted()),
    {
        match self.current_char() {
            Some(c) => c != '"',
            None => false,
        }
    }

    /// Whether the scanner stands on a line break.
    fn at_newline(&self) -> (r: bool)
        ensures
            r == (self@.current() == Some('\n')),
    {
        match self.current_char() {
            Some(c) => c == '\n',
            None => false,
        }
    }

    /// Whether an equals sign stands behind the character under the cursor.
    fn at_second_equals(&self) -> (r: bool)
        ensures
            r == (self@.peek() == Some('=')),
    {
        match self.peek_char() {
            Some(c) => c == '=',
            None => false,
        }
    }

    /// The piece of the text from `start` up to `end`.
    fn slice(&self, start: usize, end: usize) -> (piece: String)
        requires
            start <= end <= self@.text.len(),
        ensures
            piece@ == self@.text.subrange(start as int, end as int),
    {
        String::from_str(self.input.as_str().substring_char(start, end))
    }

    /// Moves on to the first character that is no whitespace, counting the
    /// lines on the way.
    fn skip_whitespace(&mut self)
        ensures
            final(self)@ == old(self)@.skip_whitespace(),
    {
        proof {
            use_type_invariant(&*self);
        }
        while self.at_whitespace()
            invariant
                self@.text == old(self)@.text,
                old(self)@.cursor <= self@.cursor <= self@.text.len(),
                run_end(self@.text, self@.cursor, blanks()) == run_end(
                    self@.text,
                    old(self)@.cursor,
                    blanks(),
                ),
                self@.line == old(self)@.line + newlines_in(
                    self@.text,
                    old(self)@.cursor,
                    self@.cursor,
                ),
                self@.column == column_after(
                    self@.text,
                    old(self)@.cursor,
                    self@.cursor,
                    old(self)@.column,
                ),
            decreases self@.text.len() - self@.cursor,
        {
            proof {
                use_type_invariant(&*self);
            }
            let at_newline = self.at_newline();
            self.cursor += 1;
            if at_newline {
                self.line += 1;
                self.column = 1;
            } else {
                self.column += 1;
            }
        }
    }

    /// Reads the run of letters under the cursor.
    fn read_identifier(&mut self) -> (literal: String)
        ensures
            final(self)@ == old(self)@.advance_to(
                run_end(old(self)@.text, old(self)@.cursor, letters()),
            ),
            literal@ == old(self)@.text.subrange(old(self)@.cursor, final(self)@.cursor),
    {
        proof {
            use_type_invariant(&*self);
        }
        let start = self.cursor;
        while self.at_letter()
            invariant
                self@ == old(self)@.advance_to(self@.cursor),
                start == old(self)@.cursor,
                start <= self@.cursor <= self@.text.len(),
                run_end(self@.text, self@.cursor, letters()) == run_end(
                    self@.text,
                    start as int,
                    letters(),
                ),
            decreases self@.text.len() - self@.cursor,
        {
            self.read_char();
        }
        self.slice(start, self.cursor)
    }

    /// Reads the run of digits under the cursor.
    fn read_digit(&mut self) -> (literal: String)
        ensures
            final(self)@ == old(self)@.advance_to(
                run_end(old(self)@.text, old(self)@.cursor, digits()),
            ),
            literal@ == old(self)@.text.subrange(old(self)@.cursor, final(self)@.cursor),
    {
        proof {
            use_type_invariant(&*self);
        }
        let start = self.cursor;
        while self.at_digit()
            invariant
                self@ == old(self)@.advance_to(self@.cursor),
                start == old(self)@.cursor,
                start <= self@.cursor <= self@.text.len(),
                run_end(self@.text, self@.cursor, digits()) == run_end(
                    self@.text,
                    start as int,
                    digits(),
                ),
            decreases self@.text.len() - self@.cursor,
        {
            self.read_char();
        }
        self.slice(start, self.cursor)
    }

    /// Reads a string literal, from its opening quote to its closing quote
    /// or, where that is missing, to the end of the text. Hands out what
    /// stands between the quotes.
    fn read_string(&mut self) -> (literal: String)
        ensures
            ({
                let text = old(self)@.text;
                let open = old(self)@.advance().cursor;
                let close = run_end(text, open, unquoted());
                &&& literal@ == text.subrange(open, close)
                &&& final(self)@ == old(self)@.advance_to(
                    if close < text.len() {
                        close + 1
                    } else {
                        close
                    },
                )
            }),
    {
        proof {
            use_type_invariant(&*self);
        }
        self.read_char();
        let start = self.cursor;
        while self.at_unquoted()
            invariant
                self@ == old(self)@.advance_to(self@.cursor),
                start == old(self)@.advance().cursor,
                start <= self@.cursor <= self@.text.len(),
                run_end(self@.text, self@.cursor, unquoted()) == run_end(
                    self@.text,
                    start as int,
                    unquoted(),
                ),
            decreases self@.text.len() - self@.cursor,
        {
            self.read_char();
        }
        let end = self.cursor;
        let literal = self.slice(start, end);
        self.read_char();
        literal
    }

    /// Hands out the next token of the text and moves on behind it. From
    /// the end of the text on, each call hands out the end-of-input token
    /// and leaves the scanner as it is.
    pub fn next_token(&mut self) -> (token: Token)
        ensures
            token@ == old(self)@.token(),
            final(self)@ == old(self)@.step(),
            old(self)@.wf(),
            final(self)@.wf(),
    {
        proof {
            use_type_invariant(&*self);
            lemma_step(self@);
        }
        self.skip_whitespace();
        proof {
            use_type_invariant(&*self);
        }
        let line = self.line;
        let column = self.column;
        let start = self.cursor;
        match self.current_char() {
            None => Token::new(String::new(), false, line, column),
            Some(c) => {
                if is_letter_char(c) {
                    let literal = self.read_identifier();
                    Token::new(literal, false, line, column)
                } else if is_digit_char(c) {
                    let literal = self.read_digit();
                    Token::new(literal, false, line, column)
                } else if c == '"' {
                    let literal = self.read_string();
                    Token::new(literal, true, line, column)
                } else if (c == '=' || c == '!') && self.at_second_equals() {
                    self.read_char();
                    self.read_char();
                    let literal = self.slice(start, start + 2);
                    Token::new(literal, false, line, column)
                } else {
                    self.read_char();
                    let literal = self.slice(start, start + 1);
                    Token::new(literal, false, line, column)
                }
            },
        }
    }
}

} // verus!
