//! The three moves, the relation that says which move defeats which, and the
//! outcome of a round.

use vstd::prelude::*;
use vstd::string::StringExecFns;
use crate::chance::random_below;
use crate::grammar::{
    recognises, spells, word_or_initial, PAPER_PATTERN, ROCK_PATTERN, SCISSORS_PATTERN,
};
use crate::input::{is_white_space, text_of};

verus! {

/// One of the three moves of the game.
#[derive(Clone, Copy, Debug, PartialEq, Eq, Structural)]
pub enum Choice {
    Rock,
    Paper,
    Scissors,
}

/// How a round ends, seen from the player's side.
#[derive(Clone, Copy, Debug, PartialEq, Eq, Structural)]
pub enum Outcome {
    PlayerWin,
    ComputerWin,
    Tie,
}

/// The beats-relation: Rock beats Scissors, Paper beats Rock, Scissors beats
/// Paper, and nothing else beats anything.
pub open spec fn beats(winner: Choice, loser: Choice) -> bool {
    ||| winner == Choice::Rock && loser == Choice::Scissors
    ||| winner == Choice::Paper && loser == Choice::Rock
    ||| winner == Choice::Scissors && loser == Choice::Paper
}

/// The outcome of a round in which the player shows `player` and the
/// computer shows `opponent`.
pub open spec fn outcome_of(player: Choice, opponent: Choice) -> Outcome {
    if beats(player, opponent) {
        Outcome::PlayerWin
    } else if beats(opponent, player) {
        Outcome::ComputerWin
    } else {
        Outcome::Tie
    }
}

/// The move that stands at `index` in the order Rock, Paper, Scissors.
pub open spec fn choice_at(index: int) -> Choice
    recommends
        0 <= index < 3,
{
    if index == 0 {
        Choice::Rock
    } else if index == 1 {
        Choice::Paper
    } else {
        Choice::Scissors
    }
}

/// The move that `input` names: Rock, Paper or Scissors for a text that
/// spells the word or its first letter, in either case; no move for any
/// other text and where there is no text.
pub open spec fn parse_move(input: Option<Seq<char>>) -> Option<Choice> {
    match input {
        Some(text) => if word_or_initial(text, "rock"@) {
            Some(Choice::Rock)
        } else if word_or_initial(text, "paper"@) {
            Some(Choice::Paper)
        } else if word_or_initial(text, "scissors"@) {
            Some(Choice::Scissors)
        } else {
            None
        },
        None => None,
    }
}

/// The word by which a move is shown.
pub open spec fn choice_label(choice: Choice) -> Seq<char> {
    match choice {
        Choice::Rock => "Rock"@,
        Choice::Paper => "Paper"@,
        Choice::Scissors => "Scissors"@,
    }
}

impl Choice {
    /// Reads a move from what the player typed. The three recognisers are
    /// tried in the order Rock, Paper, Scissors.
    pub fn new(input: Option<String>) -> (choice: Option<Choice>)
        ensures
            choice == parse_move(text_of(input)),
    {
        match input {
            Some(text) => {
                if recognises(ROCK_PATTERN, text.as_str()) {
                    Some(Choice::Rock)
                } else if recognises(PAPER_PATTERN, text.as_str()) {
                    Some(Choice::Paper)
                } else if recognises(SCISSORS_PATTERN, text.as_str()) {
                    Some(Choice::Scissors)
                } else {
                    None
                }
            },
            None => None,
        }
    }

    /// The computer's move: one of the three, drawn at random.
    pub fn random() -> (choice: Choice)
        ensures
            exists|index: int| 0 <= index < 3 && choice == choice_at(index),
    {
        let index: u32 = random_below(3);
        Choice::from_index(index)
    }

    /// The word by which this move is shown.
    pub fn to_string(&self) -> (shown: String)
        ensures
            shown@ == choice_label(*self),
    {
        match self {
            Choice::Rock => String::from_str("Rock"),
            Choice::Paper => String::from_str("Paper"),
            Choice::Scissors => String::from_str("Scissors"),
        }
    }

    /// Whether this move defeats `choice`.
    pub fn beat(&self, choice: &Choice) -> (wins: bool)
        ensures
            wins == beats(*self, *choice),
    {
        match (self, choice) {
            (Choice::Rock, Choice::Scissors) => true,
            (Choice::Paper, Choice::Rock) => true,
            (Choice::Scissors, Choice::Paper) => true,
            _ => false,
        }
    }

    /// Resolves a round: this move is the player's, `opponent` the
    /// computer's.
    pub fn against(&self, opponent: &Choice) -> (result: Outcome)
        ensures
            result == outcome_of(*self, *opponent),
    {
        let win = self.beat(opponent);
        let lose = opponent.beat(self);
        if win {
            Outcome::PlayerWin
        } else if lose {
            Outcome::ComputerWin
        } else {
            Outcome::Tie
        }
    }

    /// The move that stands at `index` in the order Rock, Paper, Scissors.
    pub fn from_index(index: u32) -> (choice: Choice)
        requires
            index < 3,
        ensures
            choice == choice_at(index as int),
    {
        if index == 0 {
            Choice::Rock
        } else if index == 1 {
            Choice::Paper
        } else {
            Choice::Scissors
        }
    }
}

/// No move beats itself, and of two moves at most one beats the other.
pub proof fn lemma_beats_asymmetric(a: Choice, b: Choice)
    ensures
        !beats(a, a),
        !(beats(a, b) && beats(b, a)),
        a != b ==> (beats(a, b) || beats(b, a)),
{
}

/// The resolver is total and antisymmetric: every pair of moves has exactly
/// one outcome; a round is tied exactly when both sides show the same move;
/// and the player wins a round exactly when the computer wins the round in
/// which the two moves change sides.
pub proof fn lemma_outcome_antisymmetric(player: Choice, opponent: Choice)
    ensures
        outcome_of(player, player) == Outcome::Tie,
        outcome_of(player, opponent) == Outcome::Tie <==> player == opponent,
        outcome_of(player, opponent) == Outcome::PlayerWin <==> beats(player, opponent),
        outcome_of(player, opponent) == Outcome::ComputerWin <==> beats(opponent, player),
        outcome_of(player, opponent) == Outcome::PlayerWin <==> outcome_of(opponent, player)
            == Outcome::ComputerWin,
        outcome_of(Choice::Rock, Choice::Scissors) == Outcome::PlayerWin,
        outcome_of(Choice::Scissors, Choice::Rock) == Outcome::ComputerWin,
{
}

/// The move recogniser accepts exactly the texts that spell "rock" or "r"
/// (Rock), "paper" or "p" (Paper), "scissors" or "s" (Scissors), each in
/// either case, and rejects every other text, the empty text and a text of
/// white space among them. No text is accepted for two moves, so the order
/// in which the recognisers are tried decides nothing.
pub proof fn lemma_move_recogniser_exact(text: Seq<char>)
    ensures
        parse_move(Some(text)) == Some(Choice::Rock) <==> spells(text, "rock"@) || spells(
            text,
            "r"@,
        ),
        parse_move(Some(text)) == Some(Choice::Paper) <==> spells(text, "paper"@) || spells(
            text,
            "p"@,
        ),
        parse_move(Some(text)) == Some(Choice::Scissors) <==> spells(text, "scissors"@) || spells(
            text,
            "s"@,
        ),
        parse_move(Some(text)) is None <==> !(spells(text, "rock"@) || spells(text, "r"@)
            || spells(text, "paper"@) || spells(text, "p"@) || spells(text, "scissors"@)
            || spells(text, "s"@)),
        text.len() == 0 ==> parse_move(Some(text)) is None,
        (forall|i: int| 0 <= i < text.len() ==> is_white_space(#[trigger] text[i]))
            ==> parse_move(Some(text)) is None,
        parse_move(None) is None,
{
    reveal_strlit("rock");
    reveal_strlit("r");
    reveal_strlit("paper");
    reveal_strlit("p");
    reveal_strlit("scissors");
    reveal_strlit("s");
    assert("rock"@.subrange(0, 1) =~= "r"@);
    assert("paper"@.subrange(0, 1) =~= "p"@);
    assert("scissors"@.subrange(0, 1) =~= "s"@);
    if text.len() > 0 {
        let first = text[0];
        assert(spells(text, "rock"@) || spells(text, "r"@) ==> crate::grammar::same_letter(
            first,
            'r',
        ));
        assert(spells(text, "paper"@) || spells(text, "p"@) ==> crate::grammar::same_letter(
            first,
            'p',
        ));
        assert(spells(text, "scissors"@) || spells(text, "s"@) ==> crate::grammar::same_letter(
            first,
            's',
        ));
    }
}

} // verus!
