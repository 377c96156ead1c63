//! The course of a session: which question is open, what a line of input
//! leads to, and what is shown in answer to it.
//!
//! A session reads nothing and prints nothing. Its caller shows the prompt
//! of the open question, reads a line, hands it to [`Session::step`], and
//! prints the lines that come back, until no question is open.

use vstd::prelude::*;
use vstd::string::StringExecFns;
use crate::choice::{parse_move, Choice};
use crate::input::{clean_line, cleaned, text_of};
use crate::name::{parse_name, Name};
use crate::replay::{parse_replay, Replay};
use crate::text::{
    computer_chose, computer_chose_text, greeting, greeting_text, outcome_line, outcome_text,
    player_chose, player_chose_text, FAREWELL, GIVE_UP, MOVE_HELP, MOVE_PROMPT, NAME_PROMPT,
    REPLAY_PROMPT, UNCLEAR,
};

verus! {

/// How many texts in a row may name no move before the session gives up.
pub const MAX_FAILURES: u8 = 4;

/// The question that is open.
#[derive(Clone, Copy, Debug, PartialEq, Eq, Structural)]
pub enum Phase {
    /// The player's name is asked for, once, at the start.
    AwaitName,
    /// A move is asked for; `failures` texts in a row have named none.
    AwaitMove { failures: u8 },
    /// A round was shown, and the player is asked whether to play another.
    AwaitReplay,
    /// The session is over: no question is open.
    Terminated,
}

/// A session as the contracts see it.
pub struct SessionState {
    /// The player's name, if a valid one was given.
    pub name: Option<Seq<char>>,
    /// The question that is open.
    pub phase: Phase,
}

/// What a line of input leads to.
pub struct Turn {
    /// The session after the line.
    pub next: SessionState,
    /// The lines shown in answer, in their order.
    pub lines: Seq<Seq<char>>,
}

impl SessionState {
    /// A session keeps the count of texts that named no move below the
    /// limit: at the limit it is over.
    pub open spec fn valid(self) -> bool {
        self.phase matches Phase::AwaitMove { failures } ==> failures < MAX_FAILURES
    }
}

/// The session at its start.
pub open spec fn initial_state() -> SessionState {
    SessionState { name: None, phase: Phase::AwaitName }
}

/// The prompt of the open question, if one is open.
pub open spec fn prompt_text(phase: Phase) -> Option<Seq<char>> {
    match phase {
        Phase::AwaitName => Some(NAME_PROMPT@),
        Phase::AwaitMove { .. } => Some(MOVE_PROMPT@),
        Phase::AwaitReplay => Some(REPLAY_PROMPT@),
        Phase::Terminated => None,
    }
}

/// After the name was asked for: the player is greeted, by name or as
/// "Anon", and a move is asked for.
pub open spec fn after_name(name: Option<Seq<char>>) -> Turn {
    Turn {
        next: SessionState { name, phase: Phase::AwaitMove { failures: 0 } },
        lines: seq![greeting_text(name)],
    }
}

/// After a move was asked for and `player` was named: the round against
/// `opponent` is shown, and the player is asked whether to play again.
pub open spec fn round_shown(name: Option<Seq<char>>, player: Choice, opponent: Choice) -> Turn {
    Turn {
        next: SessionState { name, phase: Phase::AwaitReplay },
        lines: seq![
            player_chose_text(name, player),
            computer_chose_text(opponent),
            outcome_text(player, opponent),
        ],
    }
}

/// After a move was asked for and none was named, `failures` times in a row
/// before: the player is corrected and asked once more, until the limit is
/// reached; then the session is over.
pub open spec fn move_rejected(name: Option<Seq<char>>, failures: u8) -> Turn {
    if failures + 1 < MAX_FAILURES {
        Turn {
            next: SessionState { name, phase: Phase::AwaitMove { failures: (failures + 1) as u8 } },
            lines: seq![MOVE_HELP@],
        }
    } else {
        Turn {
            next: SessionState { name, phase: Phase::Terminated },
            lines: seq![MOVE_HELP@, GIVE_UP@, FAREWELL@],
        }
    }
}

/// After the player was asked whether to play again: yes leads to a new
/// round, no to the end, and anything else to a rebuke and the end.
pub open spec fn after_replay(name: Option<Seq<char>>, answer: Replay) -> Turn {
    match answer {
        Replay::Again => Turn {
            next: SessionState { name, phase: Phase::AwaitMove { failures: 0 } },
            lines: Seq::empty(),
        },
        Replay::Stop => Turn {
            next: SessionState { name, phase: Phase::Terminated },
            lines: seq![FAREWELL@],
        },
        Replay::Unclear => Turn {
            next: SessionState { name, phase: Phase::Terminated },
            lines: seq![UNCLEAR@, FAREWELL@],
        },
    }
}

/// What `line` leads to in `state`, where the computer's move, if one is
/// called for, is `opponent`. The line is no line where none could be read;
/// white space at its ends does not count.
pub open spec fn step_of(state: SessionState, line: Option<Seq<char>>, opponent: Choice) -> Turn {
    match state.phase {
        Phase::AwaitName => after_name(parse_name(cleaned(line))),
        Phase::AwaitMove { failures } => match parse_move(cleaned(line)) {
            Some(player) => round_shown(state.name, player, opponent),
            None => move_rejected(state.name, failures),
        },
        Phase::AwaitReplay => after_replay(state.name, parse_replay(cleaned(line))),
        Phase::Terminated => Turn { next: state, lines: Seq::empty() },
    }
}

/// What a list of lines holds, as sequences of characters.
pub open spec fn texts(lines: Seq<String>) -> Seq<Seq<char>> {
    Seq::new(lines.len(), |i: int| lines[i]@)
}

/// A session of the game.
pub struct Session {
    name: Name,
    phase: Phase,
}

impl View for Session {
    type V = SessionState;

    closed spec fn view(&self) -> SessionState {
        SessionState { name: self.name@, phase: self.phase }
    }
}

impl Session {
    #[verifier::type_invariant]
    spec fn well_formed(self) -> bool {
        self@.valid()
    }

    /// A session at its start: the name is asked for.
    pub fn new() -> (session: Session)
        ensures
            session@ == initial_state(),
    {
        Session { name: Name::new(None), phase: Phase::AwaitName }
    }

    /// The question that is open.
    pub fn phase(&self) -> (phase: Phase)
        ensures
            phase == self@.phase,
            self@.valid(),
    {
        proof {
            use_type_invariant(self);
        }
        self.phase
    }

    /// The player's name.
    pub fn name(&self) -> (name: &Name)
        ensures
            name@ == self@.name,
    {
        &self.name
    }

    /// Whether the session is over.
    pub fn is_over(&self) -> (over: bool)
        ensures
            over == (self@.phase == Phase::Terminated),
    {
        match self.phase {
            Phase::Terminated => true,
            _ => false,
        }
    }

    /// The prompt of the open question; `None` once the session is over.
    pub fn prompt(&self) -> (prompt: Option<&'static str>)
        ensures
            (match prompt {
                Some(text) => Some(text@),
                None => None,
            }) == prompt_text(self@.phase),
    {
        match self.phase {
            Phase::AwaitName => Some(NAME_PROMPT),
            Phase::AwaitMove { .. } => Some(MOVE_PROMPT),
            Phase::AwaitReplay => Some(REPLAY_PROMPT),
            Phase::Terminated => None,
        }
    }

    /// Takes the name from `input` and greets the player.
    fn take_name(&mut self, input: Option<String>) -> (lines: Vec<String>)
        requires
            old(self)@.phase == Phase::AwaitName,
        ensures
            final(self)@ == after_name(parse_name(text_of(input))).next,
            texts(lines@) == after_name(parse_name(text_of(input))).lines,
    {
        self.name = Name::new(input);
        self.phase = Phase::AwaitMove { failures: 0 };
        let mut lines: Vec<String> = Vec::new();
        lines.push(greeting(&self.name));
        assert(texts(lines@) =~= after_name(parse_name(text_of(input))).lines);
        lines
    }

    /// Shows the round of `player` against `opponent`.
    fn show_round(&mut self, player: Choice, opponent: Choice) -> (lines: Vec<String>)
        requires
            old(self)@.phase matches Phase::AwaitMove { .. },
        ensures
            final(self)@ == round_shown(old(self)@.name, player, opponent).next,
            texts(lines@) == round_shown(old(self)@.name, player, opponent).lines,
    {
        let mut lines: Vec<String> = Vec::new();
        lines.push(player_chose(&self.name, player));
        lines.push(computer_chose(opponent));
        lines.push(outcome_line(player, opponent));
        self.phase = Phase::AwaitReplay;
        assert(texts(lines@) =~= seq![
            player_chose_text(old(self)@.name, player),
            computer_chose_text(opponent),
            outcome_text(player, opponent),
        ]);
        lines
    }

    /// Counts a text that named no move, and gives up at the limit.
    fn reject_move(&mut self, failures: u8) -> (lines: Vec<String>)
        requires
            old(self)@.phase == (Phase::AwaitMove { failures }),
        ensures
            final(self)@ == move_rejected(old(self)@.name, failures).next,
            texts(lines@) == move_rejected(old(self)@.name, failures).lines,
    {
        proof {
            use_type_invariant(&*self);
        }
        let mut lines: Vec<String> = Vec::new();
        lines.push(String::from_str(MOVE_HELP));
        if failures + 1 < MAX_FAILURES {
            self.phase = Phase::AwaitMove { failures: failures + 1 };
            assert(texts(lines@) =~= seq![MOVE_HELP@]);
        } else {
            lines.push(String::from_str(GIVE_UP));
            lines.push(String::from_str(FAREWELL));
            self.phase = Phase::Terminated;
            assert(texts(lines@) =~= seq![MOVE_HELP@, GIVE_UP@, FAREWELL@]);
        }
        lines
    }

    /// Acts on the answer to the question whether to play again.
    fn take_answer(&mut self, answer: Replay) -> (lines: Vec<String>)
        requires
            old(self)@.phase == Phase::AwaitReplay,
        ensures
            final(self)@ == after_replay(old(self)@.name, answer).next,
            texts(lines@) == after_replay(old(self)@.name, answer).lines,
    {
        let mut lines: Vec<String> = Vec::new();
        match answer {
            Replay::Again => {
                self.phase = Phase::AwaitMove { failures: 0 };
            },
            Replay::Stop => {
                lines.push(String::from_str(FAREWELL));
                self.phase = Phase::Terminated;
            },
            Replay::Unclear => {
                lines.push(String::from_str(UNCLEAR));
                lines.push(String::from_str(FAREWELL));
                self.phase = Phase::Terminated;
            },
        }
        assert(texts(lines@) =~= after_replay(old(self)@.name, answer).lines);
        lines
    }

    /// Takes the line that was read in answer to the open question, and
    /// returns the lines to show; `line` is `None` where none could be
    /// read. The computer's move, if the line calls for one, is `opponent`.
    pub fn step_with(&mut self, line: Option<String>, opponent: Choice) -> (lines: Vec<String>)
        ensures
            final(self)@ == step_of(old(self)@, text_of(line), opponent).next,
            texts(lines@) == step_of(old(self)@, text_of(line), opponent).lines,
            final(self)@.valid(),
    {
        let input = clean_line(line);
        let lines = match self.phase {
            Phase::AwaitName => self.take_name(input),
            Phase::AwaitMove { failures } => match Choice::new(input) {
                Some(player) => self.show_round(player, opponent),
                None => self.reject_move(failures),
            },
            Phase::AwaitReplay => self.take_answer(Replay::new(input)),
            Phase::Terminated => Vec::new(),
        };
        proof {
            use_type_invariant(&*self);
            assert(texts(lines@) =~= step_of(old(self)@, text_of(line), opponent).lines);
        }
        lines
    }

    /// Takes the line that was read in answer to the open question, and
    /// returns the lines to show; `line` is `None` where none could be
    /// read. The computer's move is drawn at random, and only where the line
    /// names a move.
    pub fn step(&mut self, line: Option<String>) -> (lines: Vec<String>)
        ensures
            exists|opponent: Choice|
                {
                    &&& final(self)@ == (#[trigger] step_of(
                        old(self)@,
                        text_of(line),
                        opponent,
                    )).next
                    &&& texts(lines@) == step_of(old(self)@, text_of(line), opponent).lines
                },
            final(self)@.valid(),
    {
        let input = clean_line(line);
        let ghost mut drawn = Choice::Rock;
        let lines = match self.phase {
            Phase::AwaitName => self.take_name(input),
            Phase::AwaitMove { failures } => match Choice::new(input) {
                Some(player) => {
                    let opponent = Choice::random();
                    proof {
                        drawn = opponent;
                    }
                    self.show_round(player, opponent)
                },
                None => self.reject_move(failures),
            },
            Phase::AwaitReplay => self.take_answer(Replay::new(input)),
            Phase::Terminated => Vec::new(),
        };
        proof {
            use_type_invariant(&*self);
            assert(texts(lines@) =~= step_of(old(self)@, text_of(line), drawn).lines);
            assert(final(self)@ == step_of(old(self)@, text_of(line), drawn).next);
        }
        lines
    }
}

/// A step keeps a session valid, keeps the name once it was taken, and
/// leaves a session that is over as it is, with nothing to show.
pub proof fn lemma_step_keeps_session(state: SessionState, line: Option<Seq<char>>, opponent: Choice)
    requires
        state.valid(),
    ensures
        step_of(state, line, opponent).next.valid(),
        state.phase != Phase::AwaitName ==> step_of(state, line, opponent).next.name == state.name,
        step_of(state, line, opponent).next.phase != Phase::AwaitName,
        state.phase == Phase::Terminated ==> step_of(state, line, opponent) == (Turn {
            next: state,
            lines: Seq::empty(),
        }),
{
}

/// The computer's move decides nothing but the round itself: where the line
/// names no move, or no move was asked for, any two moves of the computer
/// lead to the same session and the same lines.
pub proof fn lemma_opponent_only_in_round(
    state: SessionState,
    line: Option<Seq<char>>,
    first: Choice,
    second: Choice,
)
    requires
        !(state.phase is AwaitMove) || parse_move(cleaned(line)) is None,
    ensures
        step_of(state, line, first) == step_of(state, line, second),
{
}

/// The retry bound: when a move is asked for afresh, three lines in a row
/// that name no move leave the question open, each with a correction, and
/// the fourth ends the session.
pub proof fn lemma_four_failures_end_session(
    name: Option<Seq<char>>,
    lines: Seq<Option<Seq<char>>>,
    opponent: Choice,
)
    requires
        lines.len() == 4,
        forall|i: int| 0 <= i < 4 ==> parse_move(cleaned(#[trigger] lines[i])) is None,
    ensures
        ({
            let fresh = SessionState { name, phase: Phase::AwaitMove { failures: 0 } };
            let first = step_of(fresh, lines[0], opponent);
            let second = step_of(first.next, lines[1], opponent);
            let third = step_of(second.next, lines[2], opponent);
            let fourth = step_of(third.next, lines[3], opponent);
            &&& first.next.phase == Phase::AwaitMove { failures: 1 }
            &&& second.next.phase == Phase::AwaitMove { failures: 2 }
            &&& third.next.phase == Phase::AwaitMove { failures: 3 }
            &&& first.lines == seq![MOVE_HELP@]
            &&& second.lines == seq![MOVE_HELP@]
            &&& third.lines == seq![MOVE_HELP@]
            &&& fourth.next.phase == Phase::Terminated
            &&& fourth.lines == seq![MOVE_HELP@, GIVE_UP@, FAREWELL@]
        }),
{
    assert(parse_move(cleaned(lines[0])) is None);
    assert(parse_move(cleaned(lines[1])) is None);
    assert(parse_move(cleaned(lines[2])) is None);
    assert(parse_move(cleaned(lines[3])) is None);
}

} // verus!
