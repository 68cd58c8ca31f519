//! The scanner as mathematics: its state, and what one call does to it.

use crate::lexer::token::TokenView;
use crate::utils::{digit, letter, newline, whitespace};
use vstd::prelude::*;

verus! {

/// The character of `text` at `index`, or nothing where the text has none.
pub open spec fn char_at(text: Seq<char>, index: int) -> Option<char> {
    if 0 <= index < text.len() {
        Some(text[index])
    } else {
        None
    }
}

/// The letters, as a class of characters.
pub open spec fn letters() -> spec_fn(char) -> bool {
    |c: char| letter(c)
}

/// The digits, as a class of characters.
pub open spec fn digits() -> spec_fn(char) -> bool {
    |c: char| digit(c)
}

/// The whitespace, as a class of characters.
pub open spec fn blanks() -> spec_fn(char) -> bool {
    |c: char| whitespace(c)
}

/// What may stand inside a string literal: anything but the double quote.
pub open spec fn unquoted() -> spec_fn(char) -> bool {
    |c: char| c != '"'
}

/// Where the longest run of characters of `class` that begins at `from`
/// ends: the index of the first character at or after `from` that is not of
/// the class, or the length of the text.
pub open spec fn run_end(text: Seq<char>, from: int, class: spec_fn(char) -> bool) -> int
    decreases text.len() - from,
{
    if 0 <= from < text.len() && class(text[from]) {
        run_end(text, from + 1, class)
    } else {
        from
    }
}

/// The number of line breaks among the characters from `from` up to `to`.
pub open spec fn newlines_in(text: Seq<char>, from: int, to: int) -> nat
    decreases to - from,
{
    if to <= from {
        0
    } else if newline(text[to - 1]) {
        newlines_in(text, from, to - 1) + 1
    } else {
        newlines_in(text, from, to - 1)
    }
}

/// The column at `to` of a scanner that was in `column` at `from` and has
/// walked over whitespace since: one more for each character, starting again
/// at 1 behind each line break.
pub open spec fn column_after(text: Seq<char>, from: int, to: int, column: nat) -> nat
    decreases to - from,
{
    if to <= from {
        column
    } else if newline(text[to - 1]) {
        1
    } else {
        column_after(text, from, to - 1, column) + 1
    }
}

/// Where the line that holds the position `index` begins: behind the last
/// line break before `index`, or at the start of the text.
pub open spec fn line_start(text: Seq<char>, index: int) -> int
    decreases index,
{
    if index <= 0 {
        0
    } else if newline(text[index - 1]) {
        index
    } else {
        line_start(text, index - 1)
    }
}

/// The piece of text that one token is made of.
pub ghost struct Lexeme {
    /// The text of the token.
    pub literal: Seq<char>,
    /// Whether `literal` is the content of a string literal.
    pub is_string: bool,
    /// The index behind the last character that the token takes up.
    pub end: int,
}

/// The lexeme that begins at `start`, a position that is not on whitespace.
///
/// A letter begins a run of letters, a digit a run of digits; a digit does
/// not carry a run of letters on. A double quote begins a string literal,
/// which reaches to the next double quote, with nothing escaped, or to the
/// end of the text where none comes. `==` and `!=` are one lexeme each. Any
/// other character is a lexeme by itself, and the end of the text is the
/// empty lexeme.
pub open spec fn lexeme_at(text: Seq<char>, start: int) -> Lexeme {
    match char_at(text, start) {
        None => Lexeme { literal: Seq::empty(), is_string: false, end: start },
        Some(c) => {
            if letter(c) {
                let end = run_end(text, start, letters());
                Lexeme { literal: text.subrange(start, end), is_string: false, end }
            } else if digit(c) {
                let end = run_end(text, start, digits());
                Lexeme { literal: text.subrange(start, end), is_string: false, end }
            } else if c == '"' {
                let close = run_end(text, start + 1, unquoted());
                Lexeme {
                    literal: text.subrange(start + 1, close),
                    is_string: true,
                    end: if close < text.len() {
                        close + 1
                    } else {
                        close
                    },
                }
            } else if (c == '=' || c == '!') && char_at(text, start + 1) == Some('=') {
                Lexeme { literal: text.subrange(start, start + 2), is_string: false, end: start + 2 }
            } else {
                Lexeme { literal: text.subrange(start, start + 1), is_string: false, end: start + 1 }
            }
        },
    }
}

/// The state of a scanner.
pub ghost struct LexerState {
    /// The source text.
    pub text: Seq<char>,
    /// The index of the character that is read next.
    pub cursor: int,
    /// The line of that character, counted from 1.
    pub line: nat,
    /// The column of that character, counted from 1.
    pub column: nat,
}

impl LexerState {
    /// The states that a scanner can be in.
    pub open spec fn wf(self) -> bool {
        &&& 0 <= self.cursor <= self.text.len()
        &&& 1 <= self.line
        &&& 1 <= self.column
    }

    /// The state of a scanner that has read nothing of `text` yet.
    pub open spec fn initial(text: Seq<char>) -> LexerState {
        LexerState { text, cursor: 0, line: 1, column: 1 }
    }

    /// The character under the cursor; nothing at the end of the text.
    pub open spec fn current(self) -> Option<char> {
        char_at(self.text, self.cursor)
    }

    /// The character behind the one under the cursor.
    pub open spec fn peek(self) -> Option<char> {
        char_at(self.text, self.cursor + 1)
    }

    /// Whether the character under the cursor is of `class`. At the end of
    /// the text there is none, so it never is.
    pub open spec fn at(self, class: spec_fn(char) -> bool) -> bool {
        0 <= self.cursor < self.text.len() && class(self.text[self.cursor])
    }

    /// The state with the cursor moved on to `end` within one line.
    pub open spec fn advance_to(self, end: int) -> LexerState {
        LexerState {
            text: self.text,
            cursor: end,
            line: self.line,
            column: (self.column + (end - self.cursor)) as nat,
        }
    }

    /// The state with the cursor moved on by one character. At the end of
    /// the text nothing moves.
    pub open spec fn advance(self) -> LexerState {
        if self.cursor < self.text.len() {
            self.advance_to(self.cursor + 1)
        } else {
            self
        }
    }

    /// The state with the cursor moved on to the first character that is no
    /// whitespace. Each line break on the way adds one to the line and
    /// starts the columns again.
    pub open spec fn skip_whitespace(self) -> LexerState {
        let end = run_end(self.text, self.cursor, blanks());
        LexerState {
            text: self.text,
            cursor: end,
            line: self.line + newlines_in(self.text, self.cursor, end),
            column: column_after(self.text, self.cursor, end, self.column),
        }
    }

    /// The index at which the next token begins.
    pub open spec fn token_start(self) -> int {
        self.skip_whitespace().cursor
    }

    /// The lexeme of the next token.
    pub open spec fn lexeme(self) -> Lexeme {
        lexeme_at(self.text, self.token_start())
    }

    /// The token that the next call hands out. At the end of the text it is
    /// the end-of-input token.
    pub open spec fn token(self) -> TokenView {
        let begun = self.skip_whitespace();
        let lexeme = self.lexeme();
        TokenView::scanned(lexeme.literal, lexeme.is_string, begun.line, begun.column)
    }

    /// The state that the next call leaves behind: the cursor stands behind
    /// the token, on the line where the token began. A line break inside a
    /// string literal is content and starts no new line.
    pub open spec fn step(self) -> LexerState {
        self.skip_whitespace().advance_to(self.lexeme().end)
    }
}

/// A run stays inside the text, holds only characters of its class, and is as
/// long as it can be: the character behind it, if there is one, is not of the
/// class.
pub proof fn lemma_run_end(text: Seq<char>, from: int, class: spec_fn(char) -> bool)
    requires
        0 <= from <= text.len(),
    ensures
        from <= run_end(text, from, class) <= text.len(),
        forall|i: int| from <= i < run_end(text, from, class) ==> class(#[trigger] text[i]),
        run_end(text, from, class) < text.len() ==> !class(text[run_end(text, from, class)]),
    decreases text.len() - from,
{
    if from < text.len() && class(text[from]) {
        lemma_run_end(text, from + 1, class);
    }
}

/// Without a line break on the way the column grows by the distance; with
/// one it is the distance from the start of the line, counted from 1.
pub proof fn lemma_column_after(text: Seq<char>, from: int, to: int, column: nat)
    requires
        0 <= from <= to,
    ensures
        newlines_in(text, from, to) == 0 ==> column_after(text, from, to, column) == column + (to
            - from),
        newlines_in(text, from, to) > 0 ==> column_after(text, from, to, column) == to
            - line_start(text, to) + 1,
        newlines_in(text, from, to) > 0 ==> from < line_start(text, to) <= to,
        1 <= column ==> 1 <= column_after(text, from, to, column),
    decreases to - from,
{
    if from < to {
        lemma_column_after(text, from, to - 1, column);
    }
}

/// Skipping whitespace stays inside the text. The line never goes back, and
/// the position that is reached is not on whitespace.
pub proof fn lemma_skip_whitespace(state: LexerState)
    requires
        state.wf(),
    ensures
        state.skip_whitespace().wf(),
        state.cursor <= state.skip_whitespace().cursor,
        state.line <= state.skip_whitespace().line,
        !state.skip_whitespace().at(blanks()),
        !state.at(blanks()) ==> state.skip_whitespace() == state,
        state.skip_whitespace().skip_whitespace() == state.skip_whitespace(),
{
    let end = run_end(state.text, state.cursor, blanks());
    lemma_run_end(state.text, state.cursor, blanks());
    lemma_column_after(state.text, state.cursor, end, state.column);
}

/// A lexeme stays inside the text, and it takes up at least one character
/// unless it begins at the end of the text.
pub proof fn lemma_lexeme_at(text: Seq<char>, start: int)
    requires
        0 <= start <= text.len(),
    ensures
        start <= lexeme_at(text, start).end <= text.len(),
        start < text.len() ==> start < lexeme_at(text, start).end,
{
    lemma_run_end(text, start, letters());
    lemma_run_end(text, start, digits());
    if start < text.len() {
        lemma_run_end(text, start + 1, unquoted());
    }
}

/// One call leaves the scanner in a state of the model, on the same text,
/// not before the place where it was, and on no earlier line.
pub proof fn lemma_step(state: LexerState)
    requires
        state.wf(),
    ensures
        state.step().wf(),
        state.step().text == state.text,
        state.cursor <= state.token_start() <= state.step().cursor,
        state.line <= state.token().line == state.step().line,
{
    lemma_skip_whitespace(state);
    lemma_lexeme_at(state.text, state.token_start());
}

} // verus!
