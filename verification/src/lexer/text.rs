//! Texts taken apart into their characters.

use vstd::prelude::*;
use vstd::string::*;

verus! {

/// The characters of `s`, in order.
pub fn characters(s: &str) -> (v: Vec<char>)
    ensures
        v@ == s@,
{
    let mut v: Vec<char> = Vec::new();
    for c in it: s.chars()
        invariant
            v@ == it.seq().take(it.index() as int),
            it.seq() == s@,
    {
        v.push(c);
    }
    v
}

/// A text with an end mark behind it: each character in its place, and
/// nothing in the place behind the last.
pub open spec fn terminated(text: Seq<char>) -> Seq<Option<char>> {
    Seq::new(text.len() + 1, |i: int| if i < text.len() { Some(text[i]) } else { None })
}

/// The characters of `s`, in order, with an end mark behind them.
pub fn terminated_characters(s: &str) -> (buffer: Vec<Option<char>>)
    ensures
        buffer@ == terminated(s@),
{
    let mut buffer: Vec<Option<char>> = Vec::new();
    for c in it: s.chars()
        invariant
            it.seq() == s@,
            buffer@.len() == it.index(),
            forall|i: int| 0 <= i < buffer@.len() ==> buffer@[i] == Some(s@[i]),
    {
        buffer.push(Some(c));
    }
    buffer.push(None);
    buffer
}

/// Tells whether `chars` spells out `word`.
pub fn spells(chars: &Vec<char>, word: &str) -> (r: bool)
    ensures
        r == (chars@ == word@),
{
    let mut n: usize = 0;
    for c in it: word.chars()
        invariant
            it.seq() == word@,
            n == it.index(),
            n <= chars.len(),
            chars@.take(n as int) == word@.take(n as int),
    {
        if n >= chars.len() || chars[n] != c {
            assert(chars@ != word@) by {
                if chars@ == word@ {
                    assert(chars@[n as int] == word@[n as int]);
                }
            }
            return false;
        }
        assert(chars@.take(n + 1) == chars@.take(n as int).push(chars@[n as int]));
        assert(word@.take(n + 1) == word@.take(n as int).push(word@[n as int]));
        n += 1;
    }
    assert(word@.take(n as int) == word@);
    assert(n == chars.len() ==> chars@.take(n as int) == chars@);
    n == chars.len()
}

} // verus!
