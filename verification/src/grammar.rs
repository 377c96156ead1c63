//! What the player may type: the languages of names, moves and answers, and
//! the patterns that recognise them.

use vstd::prelude::*;

verus! {

/// The pattern of a name: one or more ASCII letters and nothing else.
pub const NAME_PATTERN: &'static str = "^[A-Za-z]+$";

/// The pattern of the move Rock: the word or its first letter, in any case.
pub const ROCK_PATTERN: &'static str = "^[Rr]([Oo][Cc][Kk])?$";

/// The pattern of the move Paper: the word or its first letter, in any case.
pub const PAPER_PATTERN: &'static str = "^[Pp]([Aa][Pp][Ee][Rr])?$";

/// The pattern of the move Scissors: the word or its first letter, in any
/// case.
pub const SCISSORS_PATTERN: &'static str = "^[Ss]([Cc][Ii][Ss][Ss][Oo][Rr][Ss])?$";

/// The pattern of the answer yes: the word or its first letter, in any case.
pub const YES_PATTERN: &'static str = "^[Yy]([Ee][Ss])?$";

/// The pattern of the answer no: the word or its first letter, in any case.
pub const NO_PATTERN: &'static str = "^[Nn]([Oo])?$";

/// Whether `c` is one of the 52 ASCII letters.
pub open spec fn is_letter(c: char) -> bool {
    ('a' <= c && c <= 'z') || ('A' <= c && c <= 'Z')
}

/// Whether `text` is a name: not empty, and made of ASCII letters only.
pub open spec fn letters_only(text: Seq<char>) -> bool {
    &&& text.len() > 0
    &&& forall|i: int| 0 <= i < text.len() ==> is_letter(#[trigger] text[i])
}

/// Whether `c` is the lower-case ASCII letter `letter` or its capital.
pub open spec fn same_letter(c: char, letter: char) -> bool {
    c == letter || c as int + 32 == letter as int
}

/// Whether `text` spells `word`, a word in lower-case ASCII letters, letter
/// by letter in either case.
pub open spec fn spells(text: Seq<char>, word: Seq<char>) -> bool {
    &&& text.len() == word.len()
    &&& forall|i: int| 0 <= i < text.len() ==> same_letter(#[trigger] text[i], word[i])
}

/// Whether `text` spells `word` or the first letter of `word` alone.
pub open spec fn word_or_initial(text: Seq<char>, word: Seq<char>) -> bool {
    spells(text, word) || spells(text, word.subrange(0, 1))
}

/// Whether `found` is the right answer to the question whether `pattern`
/// matches `text`, as far as this module's patterns go: each of them is
/// answered, with whether `text` belongs to the language named beside it.
pub open spec fn answers(pattern: Seq<char>, text: Seq<char>, found: Option<bool>) -> bool {
    &&& pattern == NAME_PATTERN@ ==> found == Some(letters_only(text))
    &&& pattern == ROCK_PATTERN@ ==> found == Some(word_or_initial(text, "rock"@))
    &&& pattern == PAPER_PATTERN@ ==> found == Some(word_or_initial(text, "paper"@))
    &&& pattern == SCISSORS_PATTERN@ ==> found == Some(word_or_initial(text, "scissors"@))
    &&& pattern == YES_PATTERN@ ==> found == Some(word_or_initial(text, "yes"@))
    &&& pattern == NO_PATTERN@ ==> found == Some(word_or_initial(text, "no"@))
}

/// Compiles `pattern` with `regex::Regex::new` and searches `text` with
/// `regex::Regex::is_match`; `None` where the pattern does not compile.
///
/// Not proved: that each pattern of this module compiles, and that it finds
/// a match in exactly the texts of the language named beside it. Every one
/// of them is anchored at both ends, so that a match is a match of the whole
/// text, and every class in them lists its letters one by one.
#[verifier::external_body]
pub(crate) fn pattern_matches(pattern: &str, text: &str) -> (found: Option<bool>)
    ensures
        answers(pattern@, text@, found),
{
    match regex::Regex::new(pattern) {
        Ok(compiled) => Some(compiled.is_match(text)),
        Err(_) => None,
    }
}

/// Whether `pattern` matches `text`; a pattern that does not compile matches
/// nothing.
pub(crate) fn recognises(pattern: &str, text: &str) -> (found: bool)
    ensures
        answers(pattern@, text@, Some(found)),
{
    match pattern_matches(pattern, text) {
        Some(found) => found,
        None => false,
    }
}

} // verus!
