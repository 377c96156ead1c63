use rusty_rps::choice::Choice;
use rusty_rps::session::{Phase, Session, MAX_FAILURES};
use rusty_rps::text::{
    computer_chose, greeting, outcome_line, player_chose, FAREWELL, GIVE_UP, MOVE_HELP,
    MOVE_PROMPT, NAME_PROMPT, REPLAY_PROMPT, TIE, UNCLEAR, WELCOME,
};
use rusty_rps::name::Name;

fn line(s: &str) -> Option<String> {
    Some(format!("{}\n", s))
}

fn named(name: &str) -> Session {
    let mut session = Session::new();
    session.step(line(name));
    session
}

#[test]
fn a_session_starts_by_asking_for_the_name() {
    let session = Session::new();
    assert_eq!(session.phase(), Phase::AwaitName);
    assert_eq!(session.prompt(), Some("What is your name > "));
    assert!(!session.is_over());
    assert_eq!(session.name().to_string(), "Anon");
}

#[test]
fn brian_is_greeted_by_name() {
    let mut session = Session::new();
    let shown = session.step(line("Brian"));
    assert_eq!(shown, vec!["Hello Brian".to_string()]);
    assert_eq!(session.phase(), Phase::AwaitMove { failures: 0 });
    assert_eq!(session.name().to_string(), "Brian");
    assert_eq!(session.prompt(), Some("\nR(ock), P(aper), or S(cissors) > "));
}

#[test]
fn a_number_is_greeted_as_anon() {
    let mut session = Session::new();
    let shown = session.step(line("42"));
    assert_eq!(shown, vec!["Hello Anon".to_string()]);
    assert_eq!(session.phase(), Phase::AwaitMove { failures: 0 });
}

#[test]
fn no_line_is_greeted_as_anon() {
    let mut session = Session::new();
    assert_eq!(session.step(None), vec!["Hello Anon".to_string()]);
    let mut session = Session::new();
    assert_eq!(session.step(Some(String::new())), vec!["Hello Anon".to_string()]);
}

#[test]
fn rock_wins_against_scissors() {
    let mut session = named("Brian");
    let shown = session.step_with(line("rock"), Choice::Scissors);
    assert_eq!(
        shown,
        vec![
            "\nBrian chose: Rock".to_string(),
            "Computer chose: Scissors\n".to_string(),
            "You win! Rock beats Scissors".to_string(),
        ]
    );
    assert_eq!(session.phase(), Phase::AwaitReplay);
    assert_eq!(session.prompt(), Some("Do you want to play again (y/[n]) > "));
}

#[test]
fn scissors_lose_against_rock() {
    let mut session = named("42");
    let shown = session.step_with(line("S"), Choice::Rock);
    assert_eq!(
        shown,
        vec![
            "\nAnon chose: Scissors".to_string(),
            "Computer chose: Rock\n".to_string(),
            "AI won!  Roko's coming for you with Rock, which beats Scissors".to_string(),
        ]
    );
}

#[test]
fn paper_wins_against_rock_for_the_computer() {
    let mut session = named("Brian");
    let shown = session.step_with(line("rock"), Choice::Paper);
    assert_eq!(
        shown,
        vec![
            "\nBrian chose: Rock".to_string(),
            "Computer chose: Paper\n".to_string(),
            "AI won!  Roko's coming for you with Paper, which beats Rock".to_string(),
        ]
    );
    assert!(shown[2].contains("Paper") && shown[2].contains("Rock"));
    assert!(!shown[2].contains("You win") && !shown[2].contains("Tie"));
    assert_eq!(session.step(line("n")), vec!["\nThanks for playing!".to_string()]);
    assert!(session.is_over());
}

#[test]
fn equal_moves_tie() {
    let mut session = named("Brian");
    let shown = session.step_with(line("Paper"), Choice::Paper);
    assert_eq!(
        shown,
        vec![
            "\nBrian chose: Paper".to_string(),
            "Computer chose: Paper\n".to_string(),
            "It's a Tie!".to_string(),
        ]
    );
}

#[test]
fn three_mistakes_then_paper() {
    let mut session = named("Brian");
    for failures in 1u8..=3 {
        let shown = session.step_with(line("zzz"), Choice::Rock);
        assert_eq!(
            shown,
            vec!["Please type one of \"Rock\", \"Paper\", or \"Scissors\".".to_string()]
        );
        assert_eq!(session.phase(), Phase::AwaitMove { failures });
        assert_eq!(session.prompt(), Some(MOVE_PROMPT));
    }
    let shown = session.step_with(line("paper"), Choice::Rock);
    assert_eq!(
        shown,
        vec![
            "\nBrian chose: Paper".to_string(),
            "Computer chose: Rock\n".to_string(),
            "You win! Paper beats Rock".to_string(),
        ]
    );
    assert_eq!(session.phase(), Phase::AwaitReplay);
}

#[test]
fn four_mistakes_end_the_session() {
    let mut session = named("Brian");
    for _ in 0..3 {
        assert_eq!(session.step(line("zzz")), vec![MOVE_HELP.to_string()]);
        assert!(!session.is_over());
    }
    let shown = session.step(line("zzz"));
    assert_eq!(
        shown,
        vec![
            MOVE_HELP.to_string(),
            "You are really bad at instructions".to_string(),
            "\nThanks for playing!".to_string(),
        ]
    );
    assert_eq!(session.phase(), Phase::Terminated);
    assert!(session.is_over());
    assert_eq!(session.prompt(), None);
}

#[test]
fn the_end_of_input_ends_the_session() {
    let mut session = Session::new();
    let mut steps = 0;
    while !session.is_over() {
        session.step(None);
        steps += 1;
        assert!(steps <= 5);
    }
    assert_eq!(steps, 1 + u32::from(MAX_FAILURES));
}

#[test]
fn mistakes_are_counted_afresh_in_each_round() {
    let mut session = named("Brian");
    for _ in 0..3 {
        session.step(line("?"));
    }
    session.step(line("r"));
    assert_eq!(session.step(line("y")), Vec::<String>::new());
    assert_eq!(session.phase(), Phase::AwaitMove { failures: 0 });
}

#[test]
fn yes_asks_for_a_new_move_and_no_says_farewell() {
    let mut session = named("Brian");
    session.step(line("rock"));
    assert_eq!(session.phase(), Phase::AwaitReplay);
    let shown = session.step(line("y"));
    assert!(shown.is_empty());
    assert_eq!(session.phase(), Phase::AwaitMove { failures: 0 });
    assert_eq!(session.prompt(), Some(MOVE_PROMPT));
    session.step(line("scissors"));
    let shown = session.step(line("n"));
    assert_eq!(shown, vec!["\nThanks for playing!".to_string()]);
    assert!(session.is_over());
    assert_eq!(session.prompt(), None);
}

#[test]
fn an_unclear_answer_ends_the_session_with_a_rebuke() {
    for answer in [Some("maybe\n".to_string()), Some("\n".to_string()), None] {
        let mut session = named("Brian");
        session.step(line("p"));
        let shown = session.step(answer);
        assert_eq!(shown, vec![UNCLEAR.to_string(), FAREWELL.to_string()]);
        assert!(session.is_over());
    }
}

#[test]
fn a_finished_session_stays_finished() {
    let mut session = named("Brian");
    session.step(line("p"));
    session.step(line("no"));
    assert!(session.is_over());
    assert!(session.step(line("rock")).is_empty());
    assert!(session.step_with(line("y"), Choice::Paper).is_empty());
    assert!(session.is_over());
    assert_eq!(session.name().to_string(), "Brian");
}

#[test]
fn a_drawn_round_shows_one_of_the_three_moves() {
    let mut seen = [false; 3];
    for _ in 0..600 {
        let mut session = named("Brian");
        let shown = session.step(line("rock"));
        assert_eq!(shown.len(), 3);
        assert_eq!(shown[0], "\nBrian chose: Rock");
        match shown[1].as_str() {
            "Computer chose: Rock\n" => {
                seen[0] = true;
                assert_eq!(shown[2], "It's a Tie!");
            }
            "Computer chose: Paper\n" => {
                seen[1] = true;
                assert_eq!(
                    shown[2],
                    "AI won!  Roko's coming for you with Paper, which beats Rock"
                );
            }
            "Computer chose: Scissors\n" => {
                seen[2] = true;
                assert_eq!(shown[2], "You win! Rock beats Scissors");
            }
            other => panic!("unexpected line {:?}", other),
        }
    }
    assert_eq!(seen, [true, true, true]);
}

#[test]
fn the_texts_are_as_shown() {
    assert_eq!(WELCOME, "Welcome to Rusty Rock Paper Scissors");
    assert_eq!(NAME_PROMPT, "What is your name > ");
    assert_eq!(MOVE_PROMPT, "\nR(ock), P(aper), or S(cissors) > ");
    assert_eq!(REPLAY_PROMPT, "Do you want to play again (y/[n]) > ");
    assert_eq!(MOVE_HELP, "Please type one of \"Rock\", \"Paper\", or \"Scissors\".");
    assert_eq!(GIVE_UP, "You are really bad at instructions");
    assert_eq!(TIE, "It's a Tie!");
    assert_eq!(
        UNCLEAR,
        "It is a smpiple yes or no question, and yet you still screwed that up."
    );
    assert_eq!(FAREWELL, "\nThanks for playing!");
    let brian = Name::new(Some("Brian".to_string()));
    assert_eq!(greeting(&brian), "Hello Brian");
    assert_eq!(greeting(&Name::new(None)), "Hello Anon");
    assert_eq!(player_chose(&brian, Choice::Scissors), "\nBrian chose: Scissors");
    assert_eq!(computer_chose(Choice::Paper), "Computer chose: Paper\n");
    assert_eq!(outcome_line(Choice::Scissors, Choice::Paper), "You win! Scissors beats Paper");
    assert_eq!(
        outcome_line(Choice::Paper, Choice::Scissors),
        "AI won!  Roko's coming for you with Scissors, which beats Paper"
    );
    assert_eq!(outcome_line(Choice::Rock, Choice::Rock), "It's a Tie!");
}
