//! A line as it was read, made ready for the recognisers: the white space at
//! both ends is dropped, and a line that holds nothing else counts as no
//! input.

use vstd::prelude::*;
use vstd::string::{StrSliceExecFns, StringExecFns};

verus! {

/// What an optional string holds, as a sequence of characters.
pub open spec fn text_of(input: Option<String>) -> Option<Seq<char>> {
    match input {
        Some(text) => Some(text@),
        None => None,
    }
}

/// Whether `c` is white space in the sense of Unicode's property White_Space.
pub open spec fn is_white_space(c: char) -> bool {
    ||| '\u{9}' <= c && c <= '\u{d}'
    ||| c == ' '
    ||| c == '\u{85}'
    ||| c == '\u{a0}'
    ||| c == '\u{1680}'
    ||| '\u{2000}' <= c && c <= '\u{200a}'
    ||| c == '\u{2028}'
    ||| c == '\u{2029}'
    ||| c == '\u{202f}'
    ||| c == '\u{205f}'
    ||| c == '\u{3000}'
}

/// `text` without the white space that it begins with.
pub open spec fn trim_start(text: Seq<char>) -> Seq<char>
    decreases text.len(),
{
    if text.len() > 0 && is_white_space(text.first()) {
        trim_start(text.drop_first())
    } else {
        text
    }
}

/// `text` without the white space that it ends with.
pub open spec fn trim_end(text: Seq<char>) -> Seq<char>
    decreases text.len(),
{
    if text.len() > 0 && is_white_space(text.last()) {
        trim_end(text.drop_last())
    } else {
        text
    }
}

/// `text` without the white space at either end.
pub open spec fn trimmed(text: Seq<char>) -> Seq<char> {
    trim_end(trim_start(text))
}

/// What a line gives the recognisers: its text without the white space at
/// either end, or nothing where no line was read or nothing is left of it.
pub open spec fn cleaned(line: Option<Seq<char>>) -> Option<Seq<char>> {
    match line {
        Some(raw) => if trimmed(raw).len() > 0 {
            Some(trimmed(raw))
        } else {
            None
        },
        None => None,
    }
}

/// Whether `c` is white space.
pub fn is_blank(c: char) -> (blank: bool)
    ensures
        blank == is_white_space(c),
{
    ('\u{9}' <= c && c <= '\u{d}') || c == ' ' || c == '\u{85}' || c == '\u{a0}' || c
        == '\u{1680}' || ('\u{2000}' <= c && c <= '\u{200a}') || c == '\u{2028}' || c
        == '\u{2029}' || c == '\u{202f}' || c == '\u{205f}' || c == '\u{3000}'
}

/// Dropping white space from the start of `text` can begin at `from`, once
/// all that stands before `from` is white space.
proof fn lemma_trim_start_skips(text: Seq<char>, from: int)
    requires
        0 <= from <= text.len(),
        forall|i: int| 0 <= i < from ==> is_white_space(#[trigger] text[i]),
    ensures
        trim_start(text) == trim_start(text.subrange(from, text.len() as int)),
    decreases from,
{
    if from == 0 {
        assert(text.subrange(0, text.len() as int) =~= text);
    } else {
        lemma_trim_start_skips(text, from - 1);
        let rest = text.subrange(from - 1, text.len() as int);
        assert(is_white_space(rest.first()));
        assert(rest.drop_first() =~= text.subrange(from, text.len() as int));
    }
}

/// Dropping white space from the end of `text` can begin at `to`, once all
/// that stands from `to` on is white space.
proof fn lemma_trim_end_skips(text: Seq<char>, to: int)
    requires
        0 <= to <= text.len(),
        forall|i: int| to <= i < text.len() ==> is_white_space(#[trigger] text[i]),
    ensures
        trim_end(text) == trim_end(text.subrange(0, to)),
    decreases text.len() - to,
{
    if to == text.len() {
        assert(text.subrange(0, to) =~= text);
    } else {
        lemma_trim_end_skips(text, to + 1);
        let rest = text.subrange(0, to + 1);
        assert(is_white_space(rest.last()));
        assert(rest.drop_last() =~= text.subrange(0, to));
    }
}

/// The text of `line` without the white space at either end; `None` where
/// there is no line or the line holds white space only.
pub fn clean_line(line: Option<String>) -> (input: Option<String>)
    ensures
        text_of(input) == cleaned(text_of(line)),
{
    let raw = match line {
        Some(raw) => raw,
        None => {
            return None;
        },
    };
    let text = raw.as_str();
    let len: usize = text.unicode_len();
    let mut from: usize = 0;
    while from < len && is_blank(text.get_char(from))
        invariant
            from <= len == text@.len(),
            forall|i: int| 0 <= i < from ==> is_white_space(#[trigger] text@[i]),
        decreases len - from,
    {
        from = from + 1;
    }
    let mut to: usize = len;
    while from < to && is_blank(text.get_char(to - 1))
        invariant
            from <= to <= len == text@.len(),
            forall|i: int| to <= i < len ==> is_white_space(#[trigger] text@[i]),
        decreases to,
    {
        to = to - 1;
    }
    proof {
        let tail = text@.subrange(from as int, len as int);
        lemma_trim_start_skips(text@, from as int);
        if from < len {
            assert(tail.first() == text@[from as int]);
        }
        assert(trim_start(text@) == tail);
        assert forall|i: int| to - from <= i < tail.len() implies is_white_space(
            #[trigger] tail[i],
        ) by {
            assert(tail[i] == text@[i + from]);
        }
        lemma_trim_end_skips(tail, to - from);
        let kept = tail.subrange(0, to - from);
        assert(kept =~= text@.subrange(from as int, to as int));
        if from < to {
            assert(kept.last() == text@[to - 1]);
        }
        assert(trimmed(text@) == kept);
    }
    if from == to {
        None
    } else {
        Some(String::from_str(text.substring_char(from, to)))
    }
}

} // verus!
