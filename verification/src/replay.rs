//! The answer to the question whether another round is wanted.

use vstd::prelude::*;
use crate::grammar::{recognises, spells, word_or_initial, NO_PATTERN, YES_PATTERN};
use crate::input::text_of;

verus! {

/// What the player answered when asked for another round.
#[derive(Clone, Copy, Debug, PartialEq, Eq, Structural)]
pub enum Replay {
    /// "yes" or "y": another round.
    Again,
    /// "no" or "n": no more rounds.
    Stop,
    /// Anything else and nothing at all: taken as a refusal, with a rebuke.
    Unclear,
}

/// The answer that `input` gives: `Again` for a text that spells "yes" or
/// "y", `Stop` for one that spells "no" or "n", each in either case, and
/// `Unclear` for any other text and where there is no text.
pub open spec fn parse_replay(input: Option<Seq<char>>) -> Replay {
    match input {
        Some(text) => if word_or_initial(text, "yes"@) {
            Replay::Again
        } else if word_or_initial(text, "no"@) {
            Replay::Stop
        } else {
            Replay::Unclear
        },
        None => Replay::Unclear,
    }
}

impl Replay {
    /// Reads the answer from what the player typed. The recogniser of "yes"
    /// is tried before that of "no".
    pub fn new(input: Option<String>) -> (answer: Replay)
        ensures
            answer == parse_replay(text_of(input)),
    {
        match input {
            Some(text) => {
                if recognises(YES_PATTERN, text.as_str()) {
                    Replay::Again
                } else if recognises(NO_PATTERN, text.as_str()) {
                    Replay::Stop
                } else {
                    Replay::Unclear
                }
            },
            None => Replay::Unclear,
        }
    }
}

/// The answer is `Again` exactly for the texts that spell "yes" or "y", and
/// `Stop` exactly for those that spell "no" or "n"; no text is both, and the
/// empty text is neither.
pub proof fn lemma_replay_recogniser_exact(text: Seq<char>)
    ensures
        parse_replay(Some(text)) == Replay::Again <==> spells(text, "yes"@) || spells(text, "y"@),
        parse_replay(Some(text)) == Replay::Stop <==> spells(text, "no"@) || spells(text, "n"@),
        text.len() == 0 ==> parse_replay(Some(text)) == Replay::Unclear,
        parse_replay(None) == Replay::Unclear,
{
    reveal_strlit("yes");
    reveal_strlit("y");
    reveal_strlit("no");
    reveal_strlit("n");
    assert("yes"@.subrange(0, 1) =~= "y"@);
    assert("no"@.subrange(0, 1) =~= "n"@);
    if text.len() > 0 {
        let first = text[0];
        assert(spells(text, "yes"@) || spells(text, "y"@) ==> crate::grammar::same_letter(
            first,
            'y',
        ));
        assert(spells(text, "no"@) || spells(text, "n"@) ==> crate::grammar::same_letter(
            first,
            'n',
        ));
    }
}

} // verus!
