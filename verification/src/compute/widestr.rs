//! Text as the platform takes it: UTF-16 code units with a terminating zero.

use vstd::prelude::*;

verus! {

/// The UTF-16 code units of one character: the character itself where it
/// fits in 16 bits, else its high and low surrogate.
pub open spec fn utf16_of_char(c: char) -> Seq<u16> {
    let point = c as u32 as int;
    if point < 0x1_0000 {
        seq![point as u16]
    } else {
        seq![
            (0xD800 + (point - 0x1_0000) / 0x400) as u16,
            (0xDC00 + (point - 0x1_0000) % 0x400) as u16,
        ]
    }
}

/// The UTF-16 code units of a text, character after character.
pub open spec fn utf16_units(text: Seq<char>) -> Seq<u16>
    decreases text.len(),
{
    if text.len() == 0 {
        Seq::<u16>::empty()
    } else {
        utf16_units(text.drop_last()) + utf16_of_char(text.last())
    }
}

/// Whether a text can be handed to the platform: it holds no character zero.
pub open spec fn has_wide_form(text: Seq<char>) -> bool {
    !text.contains('\0')
}

/// The form in which the platform takes a text: its UTF-16 units and a
/// terminating zero.
pub open spec fn wide_form(text: Seq<char>) -> Seq<u16> {
    utf16_units(text).push(0u16)
}

/// Only the character zero encodes to a unit that is zero.
pub proof fn lemma_char_units_without_zero(c: char)
    requires
        c != '\0',
    ensures
        !utf16_of_char(c).contains(0u16),
{
    let tail = utf16_of_char(c);
    assert forall|j: int| 0 <= j < tail.len() implies tail[j] != 0u16 by {}
}

/// A text free of the character zero encodes to units free of zero.
pub proof fn lemma_units_without_zero(text: Seq<char>)
    requires
        !text.contains('\0'),
    ensures
        !utf16_units(text).contains(0u16),
    decreases text.len(),
{
    if text.len() > 0 {
        let front = text.drop_last();
        let c = text.last();
        assert forall|d: char| front.contains(d) implies text.contains(d) by {
            let i = choose|i: int| 0 <= i < front.len() && front[i] == d;
            assert(text[i] == d);
        }
        lemma_units_without_zero(front);
        assert(text[text.len() - 1] == c);
        lemma_char_units_without_zero(c);
        let units = utf16_units(front);
        let tail = utf16_of_char(c);
        assert forall|j: int| 0 <= j < (units + tail).len() implies (units + tail)[j] != 0u16 by {
            if j < units.len() {
                assert(units.contains(units[j]));
            } else {
                assert(tail.contains(tail[j - units.len()]));
            }
        }
    }
}

/// Calls `widestring::U16CString::from_str` and hands out the units it
/// holds, terminator included. That constructor encodes the text as UTF-16,
/// refuses it where a unit is zero, which is where the text holds the
/// character zero, and else appends the terminating zero.
#[verifier::external_body]
fn encode_wide(text: &str) -> (wide: Option<Vec<u16>>)
    ensures
        wide is Some <==> !text@.contains('\0'),
        wide is Some ==> wide->0@ == utf16_units(text@).push(0u16),
{
    match widestring::U16CString::from_str(text) {
        Ok(encoded) => Some(encoded.into_vec_with_nul()),
        Err(_) => None,
    }
}

/// The text as a zero-terminated wide string for the platform: its UTF-16
/// units followed by one zero, which is the only zero in it. A text that
/// holds the character zero has no such form.
pub fn wide_string(text: &str) -> (wide: Option<Vec<u16>>)
    ensures
        wide is Some <==> has_wide_form(text@),
        wide is Some ==> {
            &&& wide->0@ == wide_form(text@)
            &&& !utf16_units(text@).contains(0u16)
        },
{
    let wide = encode_wide(text);
    proof {
        if wide is Some {
            lemma_units_without_zero(text@);
        }
    }
    wide
}

} // verus!
