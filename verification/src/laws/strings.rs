//! Laws of text.
use crate::text::{after_first, ascii_lower, begins_with, decimal, digit, is_blank, is_white_space};
use crate::text::{occurs, occurs_at, without_leading_space};
use vstd::prelude::*;

verus! {

// ---------------------------------------------------------------------------- numerals

/// The number that a numeral is written for, computed from its digits.
pub open spec fn numeral_value(text: Seq<char>) -> nat
    decreases text.len(),
{
    if text.len() == 0 {
        0
    } else {
        numeral_value(text.drop_last()) * 10 + (text.last() as u32 - 48) as nat
    }
}

/// Whether a text is a decimal numeral: digits alone, and no zero before others.
pub open spec fn is_numeral(text: Seq<char>) -> bool {
    &&& text.len() > 0
    &&& forall|i: int| 0 <= i < text.len() ==> '0' <= #[trigger] text[i] <= '9'
    &&& text.len() > 1 ==> text[0] != '0'
}

/// Numbers are written as the numerals of their values.
pub proof fn numbers_are_written_as_their_numerals(n: nat)
    ensures
        is_numeral(decimal(n)),
        numeral_value(decimal(n)) == n,
        n > 0 ==> decimal(n)[0] != '0',
    decreases n,
{
    if n < 10 {
        assert(decimal(n).drop_last() =~= Seq::empty());
        assert(numeral_value(decimal(n).drop_last()) == 0);
        assert(decimal(n).last() == digit(n as int));
    } else {
        numbers_are_written_as_their_numerals(n / 10);
        let head = decimal(n / 10);
        let last = digit((n % 10) as int);
        assert(decimal(n).drop_last() =~= head);
        assert(decimal(n).last() == last);
        assert(decimal(n)[0] == head[0]);
        assert forall|i: int| 0 <= i < decimal(n).len() implies '0' <= #[trigger] decimal(n)[i]
            <= '9' by {
            if i < head.len() {
                assert(decimal(n)[i] == head[i]);
            }
        }
    }
}

// ------------------------------------------------------------------------- small letters

/// Small letters: a text in small letters has the same length; each capital letter of ASCII is replaced
/// by the letter that is 32 further on, and every other character stays.
pub proof fn small_letters(text: Seq<char>, i: int)
    requires
        0 <= i < text.len(),
    ensures
        ascii_lower(text).len() == text.len(),
        'A' <= text[i] <= 'Z' ==> ascii_lower(text)[i] as u32 == text[i] as u32 + 32,
        !('A' <= text[i] <= 'Z') ==> ascii_lower(text)[i] == text[i],
{
}

// ----------------------------------------------------------------------------- searching

/// A text holds another exactly where it is the other with something before and something after it.
pub proof fn what_a_text_holds(text: Seq<char>, part: Seq<char>)
    ensures
        occurs(text, part) <==> exists|before: Seq<char>, after: Seq<char>|
            text == #[trigger] (before + part + after),
{
    if occurs(text, part) {
        let at = choose|at: int| occurs_at(text, part, at);
        let before = text.take(at);
        let after = text.skip(at + part.len());
        assert forall|i: int| 0 <= i < part.len() implies #[trigger] text[at + i] == part[i] by {
            assert(text.subrange(at, at + part.len())[i] == part[i]);
        }
        assert forall|i: int| 0 <= i < text.len() implies text[i] == (before + part + after)[i] by {
            if at <= i < at + part.len() {
                assert(text[at + (i - at)] == part[i - at]);
            }
        }
        assert(text =~= before + part + after);
    }
    if exists|before: Seq<char>, after: Seq<char>| text == #[trigger] (before + part + after) {
        let (before, after) = choose|before: Seq<char>, after: Seq<char>|
            text == #[trigger] (before + part + after);
        assert(text.subrange(before.len() as int, (before.len() + part.len()) as int) =~= part);
        assert(occurs_at(text, part, before.len() as int));
    }
}

/// A text begins with another exactly where it is the other with something after it.
pub proof fn what_a_text_begins_with(text: Seq<char>, prefix: Seq<char>)
    ensures
        begins_with(text, prefix) <==> exists|rest: Seq<char>| text == #[trigger] (prefix + rest),
{
    if begins_with(text, prefix) {
        assert forall|i: int| 0 <= i < prefix.len() implies #[trigger] text[i] == prefix[i] by {
            assert(text.subrange(0, prefix.len() as int)[i] == prefix[i]);
        }
        assert(text =~= prefix + text.skip(prefix.len() as int));
    }
    if exists|rest: Seq<char>| text == #[trigger] (prefix + rest) {
        assert(text.subrange(0, prefix.len() as int) =~= prefix);
    }
}

/// What follows the first place of a marker: there is something exactly where the text holds the marker,
/// and then the text is what stands before, the marker and what follows, and there is no earlier place.
pub proof fn what_follows_a_marker(text: Seq<char>, marker: Seq<char>)
    ensures
        after_first(text, marker) is Some <==> occurs(text, marker),
        after_first(text, marker) matches Some(rest) ==> {
            let at = text.len() - marker.len() - rest.len();
            &&& 0 <= at
            &&& text == text.take(at) + marker + rest
            &&& forall|earlier: int| 0 <= earlier < at ==> !occurs_at(text, marker, earlier)
        },
    decreases text.len(),
{
    if begins_with(text, marker) {
        assert(occurs_at(text, marker, 0));
        what_a_text_begins_with(text, marker);
        assert(text =~= text.take(0) + marker + text.skip(marker.len() as int)) by {
            assert forall|i: int| 0 <= i < marker.len() implies #[trigger] text[i] == marker[i] by {
                assert(text.subrange(0, marker.len() as int)[i] == marker[i]);
            }
        }
    } else if text.len() > 0 {
        let rest_text = text.drop_first();
        what_follows_a_marker(rest_text, marker);
        assert forall|at: int| 0 <= at implies occurs_at(rest_text, marker, at) == #[trigger]
            occurs_at(text, marker, at + 1) by {
            if at + marker.len() <= rest_text.len() {
                assert(rest_text.subrange(at, at + marker.len()) =~= text.subrange(
                    at + 1,
                    at + 1 + marker.len(),
                ));
            }
        }
        if occurs(text, marker) {
            let at = choose|at: int| occurs_at(text, marker, at);
            assert(at > 0);
            assert(occurs_at(text, marker, (at - 1) + 1));
            assert(occurs_at(rest_text, marker, at - 1));
        }
        if occurs(rest_text, marker) {
            let at = choose|at: int| occurs_at(rest_text, marker, at);
            assert(occurs_at(text, marker, at + 1));
        }
        if let Some(rest) = after_first(text, marker) {
            let at = text.len() - marker.len() - rest.len();
            assert(rest_text =~= rest_text.take(at - 1) + marker + rest);
            assert(text =~= text.take(at) + marker + rest) by {
                assert forall|i: int| 0 <= i < text.len() implies text[i] == (text.take(at) + marker
                    + rest)[i] by {
                    if i >= at {
                        assert(rest_text[i - 1] == (rest_text.take(at - 1) + marker + rest)[i - 1]);
                    }
                }
            }
            assert forall|earlier: int| 0 <= earlier < at implies !occurs_at(
                text,
                marker,
                earlier,
            ) by {
                if earlier > 0 {
                    assert(!occurs_at(rest_text, marker, earlier - 1));
                    assert(occurs_at(rest_text, marker, earlier - 1) == occurs_at(
                        text,
                        marker,
                        (earlier - 1) + 1,
                    ));
                }
            }
        }
    } else {
        if occurs(text, marker) {
            let at = choose|at: int| occurs_at(text, marker, at);
            assert(at == 0);
        }
    }
}

/// Leading white space: a text is the white space that it begins with, all of it, and the rest.
pub proof fn leading_white_space(text: Seq<char>)
    ensures
        ({
            let rest = without_leading_space(text);
            let at = text.len() - rest.len();
            &&& 0 <= at
            &&& rest == text.skip(at)
            &&& forall|i: int| 0 <= i < at ==> is_white_space(#[trigger] text[i])
            &&& rest.len() > 0 ==> !is_white_space(rest[0])
        }),
        is_blank(text) <==> without_leading_space(text).len() == 0,
    decreases text.len(),
{
    if text.len() > 0 && is_white_space(text[0]) {
        let tail = text.drop_first();
        leading_white_space(tail);
        let rest = without_leading_space(text);
        let at = text.len() - rest.len();
        assert(text.skip(at) =~= tail.skip(at - 1));
        assert forall|i: int| 0 <= i < at implies is_white_space(#[trigger] text[i]) by {
            if i > 0 {
                assert(text[i] == tail[i - 1]);
            }
        }
        if is_blank(tail) {
            assert forall|i: int| 0 <= i < text.len() implies is_white_space(#[trigger] text[i]) by {
                if i > 0 {
                    assert(text[i] == tail[i - 1]);
                }
            }
        }
        if is_blank(text) {
            assert forall|i: int| 0 <= i < tail.len() implies is_white_space(#[trigger] tail[i]) by {
                assert(tail[i] == text[i + 1]);
            }
        }
    } else {
        assert(text.skip(0) =~= text);
        if text.len() > 0 {
            assert(!is_white_space(text[0]));
        }
    }
}

} // verus!
