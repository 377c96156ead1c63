//! The lines and prompts that a session shows.

use vstd::prelude::*;
use vstd::string::StringExecFns;
use crate::choice::{beats, choice_label, outcome_of, Choice, Outcome};
use crate::name::{display_name, Name};

verus! {

/// The prompt for the player's name.
pub const NAME_PROMPT: &'static str = "What is your name > ";

/// The prompt for a move.
pub const MOVE_PROMPT: &'static str = "\nR(ock), P(aper), or S(cissors) > ";

/// The prompt for the answer whether another round is wanted.
pub const REPLAY_PROMPT: &'static str = "Do you want to play again (y/[n]) > ";

/// The line that opens a session.
pub const WELCOME: &'static str = "Welcome to Rusty Rock Paper Scissors";

/// The line that corrects a text that names no move.
pub const MOVE_HELP: &'static str = "Please type one of \"Rock\", \"Paper\", or \"Scissors\".";

/// The line that ends a session in which too many texts named no move.
pub const GIVE_UP: &'static str = "You are really bad at instructions";

/// The line of a tied round.
pub const TIE: &'static str = "It's a Tie!";

/// The line that rebukes an answer that is neither yes nor no.
pub const UNCLEAR: &'static str =
    "It is a smpiple yes or no question, and yet you still screwed that up.";

/// The line that closes a session.
pub const FAREWELL: &'static str = "\nThanks for playing!";

/// The greeting: "Hello " and the name as it is shown.
pub open spec fn greeting_text(name: Option<Seq<char>>) -> Seq<char> {
    "Hello "@ + display_name(name)
}

/// The line that tells the player's move.
pub open spec fn player_chose_text(name: Option<Seq<char>>, player: Choice) -> Seq<char> {
    "\n"@ + display_name(name) + " chose: "@ + choice_label(player)
}

/// The line that tells the computer's move.
pub open spec fn computer_chose_text(opponent: Choice) -> Seq<char> {
    "Computer chose: "@ + choice_label(opponent) + "\n"@
}

/// The line that tells how the round ended: a win and a loss each name the
/// winning move and the move it beats, a tie names none.
pub open spec fn outcome_text(player: Choice, opponent: Choice) -> Seq<char> {
    match outcome_of(player, opponent) {
        Outcome::PlayerWin => "You win! "@ + choice_label(player) + " beats "@ + choice_label(
            opponent,
        ),
        Outcome::ComputerWin => "AI won!  Roko's coming for you with "@ + choice_label(opponent)
            + ", which beats "@ + choice_label(player),
        Outcome::Tie => TIE@,
    }
}

/// The greeting for `name`.
pub fn greeting(name: &Name) -> (line: String)
    ensures
        line@ == greeting_text(name@),
{
    String::from_str("Hello ").concat(name.to_string().as_str())
}

/// The line that tells that the player `name` chose `player`.
pub fn player_chose(name: &Name, player: Choice) -> (line: String)
    ensures
        line@ == player_chose_text(name@, player),
{
    let mut line = String::from_str("\n");
    line.append(name.to_string().as_str());
    line.append(" chose: ");
    line.append(player.to_string().as_str());
    line
}

/// The line that tells that the computer chose `opponent`.
pub fn computer_chose(opponent: Choice) -> (line: String)
    ensures
        line@ == computer_chose_text(opponent),
{
    let mut line = String::from_str("Computer chose: ");
    line.append(opponent.to_string().as_str());
    line.append("\n");
    line
}

/// The line that tells how the round of `player` against `opponent` ended.
pub fn outcome_line(player: Choice, opponent: Choice) -> (line: String)
    ensures
        line@ == outcome_text(player, opponent),
{
    match player.against(&opponent) {
        Outcome::PlayerWin => {
            let mut line = String::from_str("You win! ");
            line.append(player.to_string().as_str());
            line.append(" beats ");
            line.append(opponent.to_string().as_str());
            line
        },
        Outcome::ComputerWin => {
            let mut line = String::from_str("AI won!  Roko's coming for you with ");
            line.append(opponent.to_string().as_str());
            line.append(", which beats ");
            line.append(player.to_string().as_str());
            line
        },
        Outcome::Tie => String::from_str(TIE),
    }
}

/// A round that one side wins is told by a line that names both moves, the
/// winning move before the move it beats; a round in which both sides show
/// the same move is told as a tie.
pub proof fn lemma_outcome_names_both_moves(player: Choice, opponent: Choice)
    ensures
        beats(player, opponent) ==> outcome_text(player, opponent) == "You win! "@ + choice_label(
            player,
        ) + " beats "@ + choice_label(opponent),
        beats(opponent, player) ==> outcome_text(player, opponent)
            == "AI won!  Roko's coming for you with "@ + choice_label(opponent)
            + ", which beats "@ + choice_label(player),
        player == opponent ==> outcome_text(player, opponent) == TIE@,
{
}

} // verus!
