use rusty_rps::choice::Choice;
use rusty_rps::input::{clean_line, is_blank};
use rusty_rps::name::Name;
use rusty_rps::replay::Replay;

fn text(s: &str) -> Option<String> {
    Some(s.to_string())
}

#[test]
fn letters_make_a_name() {
    for s in ["Brian", "a", "Z", "abcXYZ", "Anon", "AZaz"] {
        assert_eq!(Name::new(text(s)).to_string(), s);
    }
}

#[test]
fn anything_else_is_anonymous() {
    for s in [
        "", "42", "Brian1", "Bob Smith", " Bob", "Bob ", "Bob\n", "\nBob", "O'Neil", "a-b", "a_b",
        "\u{c9}mile", "\u{17f}", "\u{212a}", " ", "\t", "[", "`", "@", "{",
    ] {
        assert_eq!(Name::new(text(s)).to_string(), "Anon", "input {:?}", s);
    }
    assert_eq!(Name::new(None).to_string(), "Anon");
}

#[test]
fn moves_by_word_and_by_letter() {
    for s in ["rock", "ROCK", "Rock", "rOcK", "r", "R"] {
        assert_eq!(Choice::new(text(s)), Some(Choice::Rock), "input {:?}", s);
    }
    for s in ["paper", "PAPER", "Paper", "pApEr", "p", "P"] {
        assert_eq!(Choice::new(text(s)), Some(Choice::Paper), "input {:?}", s);
    }
    for s in ["scissors", "SCISSORS", "Scissors", "sCiSsOrS", "s", "S"] {
        assert_eq!(Choice::new(text(s)), Some(Choice::Scissors), "input {:?}", s);
    }
}

#[test]
fn other_texts_name_no_move() {
    for s in [
        "", " ", "\t", "  \n", "zzz", "ro", "roc", "rocks", "rock ", " rock", "rock\n", "rr", "rp",
        "pa", "papers", "sc", "scissor", "scissorss", "ss", "x", "1", "rock paper", "r p",
        "\u{17f}", "\u{17f}cissors", "roc\u{212a}", "lizard", "spock",
    ] {
        assert_eq!(Choice::new(text(s)), None, "input {:?}", s);
    }
    assert_eq!(Choice::new(None), None);
}

#[test]
fn answers_by_word_and_by_letter() {
    for s in ["y", "Y", "yes", "YES", "Yes", "yEs"] {
        assert_eq!(Replay::new(text(s)), Replay::Again, "input {:?}", s);
    }
    for s in ["n", "N", "no", "NO", "No", "nO"] {
        assert_eq!(Replay::new(text(s)), Replay::Stop, "input {:?}", s);
    }
}

#[test]
fn other_answers_are_unclear() {
    for s in ["", " ", "ye", "yess", "yes ", " y", "y\n", "nope", "on", "maybe", "yn", "0", "1"] {
        assert_eq!(Replay::new(text(s)), Replay::Unclear, "input {:?}", s);
    }
    assert_eq!(Replay::new(None), Replay::Unclear);
}

#[test]
fn lines_lose_the_white_space_at_their_ends() {
    assert_eq!(clean_line(text("rock\n")), text("rock"));
    assert_eq!(clean_line(text("  rock \r\n")), text("rock"));
    assert_eq!(clean_line(text("\t Bob Smith\u{a0}\u{3000}")), text("Bob Smith"));
    assert_eq!(clean_line(text("x")), text("x"));
    assert_eq!(clean_line(text("\u{2003}\u{e9}t\u{e9}\u{2028}")), text("\u{e9}t\u{e9}"));
    assert_eq!(clean_line(text("a \n b")), text("a \n b"));
}

#[test]
fn lines_of_white_space_are_no_input() {
    assert_eq!(clean_line(text("")), None);
    assert_eq!(clean_line(text("\n")), None);
    assert_eq!(clean_line(text(" \t\r\n")), None);
    assert_eq!(clean_line(text("\u{85}\u{1680}\u{202f}\u{205f}")), None);
    assert_eq!(clean_line(None), None);
}

#[test]
fn cleaning_agrees_with_trim() {
    for s in [
        "", " ", "a", " a", "a ", " a ", "\n\na b\t\t", "\u{b}\u{c}x\u{d}", "\u{200b}x\u{200b}",
        "\u{2000}\u{200a}y\u{2029}", "  \u{feff} ", "\u{1680}\u{180e}\u{1680}",
    ] {
        let trimmed = s.trim();
        let expected = if trimmed.is_empty() { None } else { Some(trimmed.to_string()) };
        assert_eq!(clean_line(text(s)), expected, "input {:?}", s);
    }
}

#[test]
fn blank_is_white_space_for_every_character() {
    for code in 0u32..=0x10ffff {
        if let Some(c) = char::from_u32(code) {
            assert_eq!(is_blank(c), c.is_whitespace(), "character {:?}", c);
        }
    }
}
