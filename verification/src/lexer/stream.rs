//! What holds of a whole run of the scanner over a text.

use crate::lexer::model::{
    blanks, digits, lemma_column_after, lemma_lexeme_at, lemma_run_end, lemma_skip_whitespace,
    lemma_step, letters, line_start, newlines_in, run_end, unquoted, LexerState,
};
use crate::lexer::token::{
    classify, identifier_shaped, keyword_kind, number_shaped, symbol_kind, TokenKind, TokenView,
};
use crate::utils::{digit, letter, whitespace};
use vstd::prelude::*;

verus! {

impl LexerState {
    /// The state after `calls` calls.
    pub open spec fn after(self, calls: nat) -> LexerState
        decreases calls,
    {
        if calls == 0 {
            self
        } else {
            self.after((calls - 1) as nat).step()
        }
    }

    /// The token that the call after `calls` calls hands out.
    pub open spec fn nth_token(self, calls: nat) -> TokenView {
        self.after(calls).token()
    }

    /// The number of characters that are still to be read.
    pub open spec fn remaining(self) -> nat {
        (self.text.len() - self.cursor) as nat
    }

    /// How far the next token stands from the start of its line.
    pub open spec fn indentation(self) -> int {
        self.token_start() - line_start(self.text, self.token_start())
    }
}

/// Only the empty text outside a string literal marks the end of the input.
pub proof fn lemma_classify_end(literal: Seq<char>, is_string: bool)
    ensures
        classify(literal, is_string) == TokenKind::EndOfInput <==> !is_string && literal.len() == 0,
        classify(literal, is_string) is Text <==> is_string,
        is_string ==> classify(literal, is_string) == TokenKind::Text(literal),
        classify(literal, is_string) is Identifier ==> identifier_shaped(literal) && classify(
            literal,
            is_string,
        ) == TokenKind::Identifier(literal),
        classify(literal, is_string) is Integer ==> number_shaped(literal) && classify(
            literal,
            is_string,
        ) == TokenKind::Integer(literal),
{
}

/// No operator and no delimiter begins with a letter or a digit.
pub proof fn lemma_symbols(literal: Seq<char>)
    requires
        literal.len() > 0,
        letter(literal[0]) || digit(literal[0]),
    ensures
        symbol_kind(literal) is None,
{
    reveal_strlit("=");
    reveal_strlit("+");
    reveal_strlit("-");
    reveal_strlit("!");
    reveal_strlit("*");
    reveal_strlit("/");
    reveal_strlit("<");
    reveal_strlit(">");
    reveal_strlit("==");
    reveal_strlit("!=");
    reveal_strlit(",");
    reveal_strlit(";");
    reveal_strlit("(");
    reveal_strlit(")");
    reveal_strlit("{");
    reveal_strlit("}");
}

/// A run of letters is a keyword where the keywords list it, and else an
/// identifier that carries the run.
pub proof fn lemma_classify_identifier(literal: Seq<char>)
    requires
        identifier_shaped(literal),
    ensures
        classify(literal, false) == if keyword_kind(literal) is Some {
            keyword_kind(literal)->0
        } else {
            TokenKind::Identifier(literal)
        },
{
    lemma_symbols(literal);
}

/// A run of digits is an integer that carries the run.
pub proof fn lemma_classify_number(literal: Seq<char>)
    requires
        number_shaped(literal),
    ensures
        classify(literal, false) == TokenKind::Integer(literal),
{
    lemma_symbols(literal);
    assert(!letter(literal[0]));
}

/// The end-of-input token comes exactly when nothing but whitespace is left,
/// and it stands at the end of the text with an empty literal.
pub proof fn lemma_end_of_input(state: LexerState)
    requires
        state.wf(),
    ensures
        state.token().kind == TokenKind::EndOfInput <==> state.token_start() == state.text.len(),
        state.token().kind == TokenKind::EndOfInput ==> state.token().literal.len() == 0
            && state.step().cursor == state.text.len(),
{
    lemma_skip_whitespace(state);
    let start = state.token_start();
    lemma_lexeme_at(state.text, start);
    lemma_classify_end(state.lexeme().literal, state.lexeme().is_string);
}

/// A call that hands out the end-of-input token leaves a scanner that stays
/// as it is and hands out the same token again.
pub proof fn lemma_end_is_fixed(state: LexerState)
    requires
        state.wf(),
        state.token().kind == TokenKind::EndOfInput,
    ensures
        state.step().token() == state.token(),
        state.step().step() == state.step(),
{
    lemma_end_of_input(state);
    lemma_skip_whitespace(state);
}

/// A call that hands out any other token moves the scanner on.
pub proof fn lemma_progress(state: LexerState)
    requires
        state.wf(),
        state.token().kind != TokenKind::EndOfInput,
    ensures
        state.cursor < state.step().cursor,
        state.step().remaining() < state.remaining(),
{
    lemma_end_of_input(state);
    lemma_step(state);
    lemma_lexeme_at(state.text, state.token_start());
}

/// However many calls were made, the scanner is in a state of the model, on
/// the same text, and has not gone back.
pub proof fn lemma_after(state: LexerState, calls: nat)
    requires
        state.wf(),
    ensures
        state.after(calls).wf(),
        state.after(calls).text == state.text,
        state.cursor <= state.after(calls).cursor,
        state.line <= state.after(calls).line,
        state.after(calls).cursor >= state.text.len() || state.after(calls).cursor >= state.cursor
            + calls,
    decreases calls,
{
    if calls > 0 {
        let before = state.after((calls - 1) as nat);
        lemma_after(state, (calls - 1) as nat);
        lemma_step(before);
        lemma_end_of_input(before);
        if before.token().kind != TokenKind::EndOfInput {
            lemma_progress(before);
        }
    }
}

/// Once the end-of-input token was handed out, every later call hands out
/// the same token and leaves the scanner as it is.
pub proof fn lemma_end_is_lasting(state: LexerState, first: nat, later: nat)
    requires
        state.wf(),
        state.nth_token(first).kind == TokenKind::EndOfInput,
        first <= later,
    ensures
        state.nth_token(later) == state.nth_token(first),
        state.after(later + 1) == state.after(first + 1),
    decreases later - first,
{
    if first < later {
        lemma_end_is_lasting(state, first, (later - 1) as nat);
        let before = state.after((later - 1) as nat);
        lemma_after(state, (later - 1) as nat);
        lemma_end_is_fixed(before);
    }
}

/// Every run comes to its end: after as many calls as the text has
/// characters left, at the latest, each call hands out the end-of-input
/// token, always the same one, and the scanner moves no more.
pub proof fn lemma_end_is_reached(state: LexerState, calls: nat)
    requires
        state.wf(),
        calls >= state.remaining(),
    ensures
        state.nth_token(calls).kind == TokenKind::EndOfInput,
        state.nth_token(calls) == state.nth_token(state.remaining()),
        state.after(calls + 1) == state.after(state.remaining() + 1),
{
    let first = state.remaining();
    lemma_after(state, first);
    lemma_skip_whitespace(state.after(first));
    lemma_end_of_input(state.after(first));
    lemma_end_is_lasting(state, first, calls);
}

/// Between the place where a call begins and the token that it hands out
/// stands nothing but whitespace, and the token's line is greater by the
/// number of line breaks in it.
pub proof fn lemma_whitespace_before_token(state: LexerState)
    requires
        state.wf(),
    ensures
        state.cursor <= state.token_start() <= state.text.len(),
        forall|i: int| state.cursor <= i < state.token_start() ==> whitespace(#[trigger] state.text[i]),
        state.token_start() < state.text.len() ==> !whitespace(state.text[state.token_start()]),
        state.token().line == state.line + newlines_in(
            state.text,
            state.cursor,
            state.token_start(),
        ),
{
    lemma_run_end(state.text, state.cursor, blanks());
}

/// The lines of the tokens never go back from one call to a later one.
pub proof fn lemma_lines_never_decrease(state: LexerState, earlier: nat, later: nat)
    requires
        state.wf(),
        earlier <= later,
    ensures
        state.nth_token(earlier).line <= state.nth_token(later).line,
    decreases later - earlier,
{
    if earlier < later {
        lemma_lines_never_decrease(state, earlier, (later - 1) as nat);
        lemma_after(state, (later - 1) as nat);
        lemma_step(state.after((later - 1) as nat));
        lemma_after(state, later);
        lemma_step(state.after(later));
    }
}

/// Where a token stands on a later line than the token before it, its
/// column counts from the start of its own line.
pub proof fn lemma_column_counts_from_line_start(state: LexerState)
    requires
        state.wf(),
        state.token().line < state.step().token().line,
    ensures
        state.step().token().column == state.step().indentation() + 1,
        0 <= state.step().indentation(),
{
    lemma_step(state);
    let next = state.step();
    lemma_skip_whitespace(next);
    lemma_column_after(next.text, next.cursor, next.token_start(), next.column);
}

/// Where a token stands on a later line than the token before it, and no
/// further from the start of its line than that token's column reaches, its
/// column is no greater than that token's.
pub proof fn lemma_column_restarts(state: LexerState)
    requires
        state.wf(),
        state.token().line < state.step().token().line,
        state.step().indentation() < state.token().column,
    ensures
        state.step().token().column <= state.token().column,
{
    lemma_column_counts_from_line_start(state);
}

/// A token's literal is the text that the call took up, character for
/// character. For a string literal the text taken up is the opening quote,
/// the literal, which holds no quote, and the closing quote; at the end of
/// the text the closing quote may be missing.
pub proof fn lemma_literal_fidelity(state: LexerState)
    requires
        state.wf(),
    ensures
        ({
            let start = state.token_start();
            let end = state.step().cursor;
            let token = state.token();
            let taken = state.text.subrange(start, end);
            &&& start <= end <= state.text.len()
            &&& token.line == state.skip_whitespace().line
            &&& token.column == state.skip_whitespace().column
            &&& !(token.kind is Text) ==> taken == token.literal
            &&& token.kind is Text ==> {
                ||| taken == seq!['"'] + token.literal + seq!['"']
                ||| taken == seq!['"'] + token.literal && end == state.text.len()
            }
            &&& token.kind is Text ==> token.kind == TokenKind::Text(token.literal)
                && forall|i: int| 0 <= i < token.literal.len() ==> token.literal[i] != '"'
            &&& token.kind is Identifier ==> token.kind == TokenKind::Identifier(token.literal)
            &&& token.kind is Integer ==> token.kind == TokenKind::Integer(token.literal)
        }),
{
    lemma_skip_whitespace(state);
    let start = state.token_start();
    let text = state.text;
    lemma_lexeme_at(text, start);
    let lexeme = state.lexeme();
    lemma_classify_end(lexeme.literal, lexeme.is_string);
    if lexeme.is_string {
        let close = run_end(text, start + 1, unquoted());
        lemma_run_end(text, start + 1, unquoted());
        let taken = text.subrange(start, lexeme.end);
        if close < text.len() {
            assert(taken =~= seq!['"'] + lexeme.literal + seq!['"']);
        } else {
            assert(taken =~= seq!['"'] + lexeme.literal);
        }
    }
}

/// Letters and digits are taken up as far as they go: a token that begins
/// with a letter is the whole run of letters, classified as a keyword or an
/// identifier, and the character behind it is no letter; a token that begins
/// with a digit is the whole run of digits, an integer, and the character
/// behind it is no digit.
pub proof fn lemma_longest_match(state: LexerState)
    requires
        state.wf(),
    ensures
        ({
            let begun = state.skip_whitespace();
            let token = state.token();
            &&& begun.at(letters()) ==> {
                &&& identifier_shaped(token.literal)
                &&& !state.step().at(letters())
                &&& token.kind == if keyword_kind(token.literal) is Some {
                    keyword_kind(token.literal)->0
                } else {
                    TokenKind::Identifier(token.literal)
                }
            }
            &&& begun.at(digits()) ==> {
                &&& number_shaped(token.literal)
                &&& !state.step().at(digits())
                &&& token.kind == TokenKind::Integer(token.literal)
            }
        }),
{
    lemma_skip_whitespace(state);
    let start = state.token_start();
    let text = state.text;
    let begun = state.skip_whitespace();
    if begun.at(letters()) {
        lemma_run_end(text, start, letters());
        lemma_classify_identifier(state.token().literal);
    }
    if begun.at(digits()) {
        lemma_run_end(text, start, digits());
        lemma_classify_number(state.token().literal);
    }
}

/// An equals sign or an exclamation mark with an equals sign behind it is
/// one token of two characters; without one it is a token of its own.
pub proof fn lemma_operators(state: LexerState)
    requires
        state.wf(),
    ensures
        ({
            let begun = state.skip_whitespace();
            let token = state.token();
            let taken = state.step().cursor - state.token_start();
            &&& begun.current() == Some('=') && begun.peek() == Some('=') ==> token.kind
                == TokenKind::Equal && token.literal == seq!['=', '='] && taken == 2
            &&& begun.current() == Some('=') && begun.peek() != Some('=') ==> token.kind
                == TokenKind::Assign && token.literal == seq!['='] && taken == 1
            &&& begun.current() == Some('!') && begun.peek() == Some('=') ==> token.kind
                == TokenKind::NotEqual && token.literal == seq!['!', '='] && taken == 2
            &&& begun.current() == Some('!') && begun.peek() != Some('=') ==> token.kind
                == TokenKind::Bang && token.literal == seq!['!'] && taken == 1
        }),
{
    reveal_strlit("=");
    reveal_strlit("+");
    reveal_strlit("-");
    reveal_strlit("!");
    reveal_strlit("*");
    reveal_strlit("/");
    reveal_strlit("<");
    reveal_strlit(">");
    reveal_strlit("==");
    reveal_strlit("!=");
    lemma_skip_whitespace(state);
    let begun = state.skip_whitespace();
    let literal = state.token().literal;
    assert("="@ =~= seq!['=']);
    assert("+"@ =~= seq!['+']);
    assert("-"@ =~= seq!['-']);
    assert("!"@ =~= seq!['!']);
    assert("=="@ =~= seq!['=', '=']);
    assert("!="@ =~= seq!['!', '=']);
    let start = state.token_start();
    let text = state.text;
    if begun.current() == Some('=') {
        if begun.peek() == Some('=') {
            assert(literal =~= seq!['=', '=']);
            assert(symbol_kind(literal) == Some(TokenKind::Equal));
        } else {
            assert(literal =~= seq!['=']);
            assert(symbol_kind(literal) == Some(TokenKind::Assign));
        }
    }
    if begun.current() == Some('!') {
        if begun.peek() == Some('=') {
            assert(literal =~= seq!['!', '=']);
            assert(symbol_kind(literal) == Some(TokenKind::NotEqual));
        } else {
            assert(literal =~= seq!['!']);
            assert(literal[0] == '!' && "="@[0] == '=' && "+"@[0] == '+' && "-"@[0] == '-');
            assert(symbol_kind(literal) == Some(TokenKind::Bang));
        }
    }
}

} // verus!
