//! The player's name: a run of ASCII letters, or nothing.

use vstd::prelude::*;
use vstd::string::StringExecFns;
use crate::grammar::{letters_only, recognises, NAME_PATTERN};
use crate::input::text_of;

verus! {

/// The name that `input` gives: the text itself where it is made of ASCII
/// letters only and is not empty, and no name otherwise.
pub open spec fn parse_name(input: Option<Seq<char>>) -> Option<Seq<char>> {
    match input {
        Some(text) => if letters_only(text) {
            Some(text)
        } else {
            None
        },
        None => None,
    }
}

/// How a name is shown: as itself, or as "Anon" where there is none.
pub open spec fn display_name(name: Option<Seq<char>>) -> Seq<char> {
    match name {
        Some(text) => text,
        None => "Anon"@,
    }
}

/// A validated name, or the lack of one.
pub struct Name {
    text: Option<String>,
}

impl View for Name {
    type V = Option<Seq<char>>;

    closed spec fn view(&self) -> Option<Seq<char>> {
        text_of(self.text)
    }
}

impl Name {
    #[verifier::type_invariant]
    spec fn well_formed(self) -> bool {
        self.text matches Some(text) ==> letters_only(text@)
    }

    /// Validates `input`: the name is kept where it is made of one or more
    /// ASCII letters, and dropped in every other case.
    pub fn new(input: Option<String>) -> (name: Name)
        ensures
            name@ == parse_name(text_of(input)),
    {
        match input {
            Some(text) => {
                if recognises(NAME_PATTERN, text.as_str()) {
                    Name { text: Some(text) }
                } else {
                    Name { text: None }
                }
            },
            None => Name { text: None },
        }
    }

    /// The name as it is shown: itself, or "Anon" where there is none.
    pub fn to_string(&self) -> (shown: String)
        ensures
            shown@ == display_name(self@),
            self@ matches Some(text) ==> letters_only(text),
    {
        proof {
            use_type_invariant(self);
        }
        match &self.text {
            Some(text) => text.clone(),
            None => String::from_str("Anon"),
        }
    }
}

/// Every text that is made of ASCII letters only and is not empty is shown
/// as itself once validated; every other text, the empty one included, and
/// the lack of a text are shown as "Anon".
pub proof fn lemma_name_shown(text: Seq<char>)
    ensures
        letters_only(text) ==> display_name(parse_name(Some(text))) == text,
        !letters_only(text) ==> display_name(parse_name(Some(text))) == "Anon"@,
        text.len() == 0 ==> display_name(parse_name(Some(text))) == "Anon"@,
        (exists|i: int| 0 <= i < text.len() && !crate::grammar::is_letter(#[trigger] text[i]))
            ==> display_name(parse_name(Some(text))) == "Anon"@,
        display_name(parse_name(None)) == "Anon"@,
{
}

} // verus!
