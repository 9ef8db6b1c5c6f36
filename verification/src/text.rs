//! Text: the few operations on strings that the rules of this crate are written with.
//!
//! A string is modelled by the sequence of its characters.
use vstd::prelude::*;

verus! {

// ---------------------------------------------------------------- characters

/// `c`, with an ASCII capital letter replaced by the small one.
pub open spec fn ascii_lower_char(c: char) -> char {
    if 'A' <= c <= 'Z' {
        ((c as u8 + 32) as u8) as char
    } else {
        c
    }
}

/// Whether `c` has the Unicode property `White_Space`.
pub open spec fn is_white_space(c: char) -> bool {
    ||| '\u{9}' <= c <= '\u{d}'
    ||| c == '\u{20}'
    ||| c == '\u{85}'
    ||| c == '\u{a0}'
    ||| c == '\u{1680}'
    ||| '\u{2000}' <= c <= '\u{200a}'
    ||| c == '\u{2028}'
    ||| c == '\u{2029}'
    ||| c == '\u{202f}'
    ||| c == '\u{205f}'
    ||| c == '\u{3000}'
}

/// The decimal digit of a number below ten.
pub open spec fn digit(n: int) -> char {
    ((48 + n) as u8) as char
}

// ------------------------------------------------------------------ sequences

/// `s` with its ASCII capital letters replaced by small ones.
pub open spec fn ascii_lower(s: Seq<char>) -> Seq<char> {
    Seq::new(s.len(), |i: int| ascii_lower_char(s[i]))
}

/// Whether `needle` stands in `hay` at position `at`.
pub open spec fn occurs_at(hay: Seq<char>, needle: Seq<char>, at: int) -> bool {
    &&& 0 <= at
    &&& at + needle.len() <= hay.len()
    &&& hay.subrange(at, at + needle.len()) == needle
}

/// Whether `needle` stands somewhere in `hay`.
pub open spec fn occurs(hay: Seq<char>, needle: Seq<char>) -> bool {
    exists|at: int| occurs_at(hay, needle, at)
}

/// Whether `s` begins with `prefix`.
pub open spec fn begins_with(s: Seq<char>, prefix: Seq<char>) -> bool {
    occurs_at(s, prefix, 0)
}

/// What follows the first place at which `marker` stands in `s`; nothing where it stands nowhere.
pub open spec fn after_first(s: Seq<char>, marker: Seq<char>) -> Option<Seq<char>>
    decreases s.len(),
{
    if begins_with(s, marker) {
        Some(s.skip(marker.len() as int))
    } else if s.len() == 0 {
        None
    } else {
        after_first(s.drop_first(), marker)
    }
}

/// Whether `s` holds nothing but white space.
pub open spec fn is_blank(s: Seq<char>) -> bool {
    forall|i: int| 0 <= i < s.len() ==> is_white_space(#[trigger] s[i])
}

/// `s` without the white space that it begins with.
pub open spec fn without_leading_space(s: Seq<char>) -> Seq<char>
    decreases s.len(),
{
    if s.len() > 0 && is_white_space(s[0]) {
        without_leading_space(s.drop_first())
    } else {
        s
    }
}

/// The decimal digits of `n`, without leading zeros.
pub open spec fn decimal(n: nat) -> Seq<char>
    decreases n,
{
    if n < 10 {
        seq![digit(n as int)]
    } else {
        decimal(n / 10).push(digit((n % 10) as int))
    }
}

// ------------------------------------------------------------------ operations

/// The characters of `s`.
pub fn chars_of(s: &str) -> (chars: Vec<char>)
    ensures
        chars@ == s@,
{
    let mut chars: Vec<char> = Vec::new();
    for c in it: s.chars()
        invariant
            it.seq() == s@,
            chars@ == s@.take(it.index()),
    {
        chars.push(c);
    }
    assert(s@.take(s@.len() as int) == s@);
    chars
}

/// Whether two strings hold the same characters.
pub fn same_text(a: &str, b: &str) -> (same: bool)
    ensures
        same == (a@ == b@),
{
    let left = chars_of(a);
    let right = chars_of(b);
    if left.len() != right.len() {
        return false;
    }
    assert(left@.subrange(0, right@.len() as int) =~= left@);
    occurs_from(&left, &right, 0)
}

/// Whether `needle` stands in `hay` at position `at`.
fn occurs_from(hay: &Vec<char>, needle: &Vec<char>, at: usize) -> (found: bool)
    requires
        at + needle@.len() <= hay@.len(),
    ensures
        found == occurs_at(hay@, needle@, at as int),
{
    let end: usize = hay.len();
    let mut i: usize = 0;
    while i < needle.len()
        invariant
            at + needle@.len() <= hay@.len() == end,
            i <= needle@.len(),
            forall|j: int| 0 <= j < i ==> hay@[at + j] == #[trigger] needle@[j],
        decreases needle@.len() - i,
    {
        if hay[at + i] != needle[i] {
            assert(hay@.subrange(at as int, at + needle@.len())[i as int] != needle@[i as int]);
            return false;
        }
        i += 1;
    }
    assert(hay@.subrange(at as int, at + needle@.len()) =~= needle@);
    true
}

/// Whether `needle` stands somewhere in `hay`.
pub fn contains(hay: &Vec<char>, needle: &str) -> (found: bool)
    ensures
        found == occurs(hay@, needle@),
{
    let wanted = chars_of(needle);
    if wanted.len() > hay.len() {
        return false;
    }
    let last: usize = hay.len() - wanted.len();
    let mut at: usize = 0;
    while at <= last
        invariant
            wanted@ == needle@,
            last + wanted@.len() == hay@.len(),
            at <= last + 1,
            forall|i: int| 0 <= i < at ==> !occurs_at(hay@, needle@, i),
        decreases last + 1 - at,
    {
        if occurs_from(hay, &wanted, at) {
            return true;
        }
        if at == last {
            return false;
        }
        at += 1;
    }
    false
}

/// Whether `s` begins with `prefix`.
pub fn starts_with(s: &Vec<char>, prefix: &str) -> (found: bool)
    ensures
        found == begins_with(s@, prefix@),
{
    let wanted = chars_of(prefix);
    wanted.len() <= s.len() && occurs_from(s, &wanted, 0)
}

/// The characters of `s` from position `start`.
fn tail(s: &Vec<char>, start: usize) -> (rest: Vec<char>)
    requires
        start <= s@.len(),
    ensures
        rest@ == s@.skip(start as int),
{
    let mut rest: Vec<char> = Vec::new();
    let mut i: usize = start;
    while i < s.len()
        invariant
            start <= i <= s@.len(),
            rest@ == s@.subrange(start as int, i as int),
        decreases s@.len() - i,
    {
        rest.push(s[i]);
        i += 1;
    }
    rest
}

/// What follows the first place, from position `start` on, at which `marker` stands in `s`.
pub fn rest_after(s: &Vec<char>, start: usize, marker: &str) -> (rest: Option<Vec<char>>)
    requires
        start <= s@.len(),
    ensures
        match rest {
            Some(r) => after_first(s@.skip(start as int), marker@) == Some(r@),
            None => after_first(s@.skip(start as int), marker@) is None,
        },
{
    let wanted = chars_of(marker);
    let end: usize = s.len();
    let mut at: usize = start;
    loop
        invariant
            wanted@ == marker@,
            end == s@.len(),
            at <= end,
            after_first(s@.skip(at as int), marker@) == after_first(
                s@.skip(start as int),
                marker@,
            ),
        decreases end - at,
    {
        let ghost here = s@.skip(at as int);
        if wanted.len() <= end - at && occurs_from(s, &wanted, at) {
            assert(here.subrange(0, marker@.len() as int) =~= s@.subrange(
                at as int,
                at + marker@.len(),
            ));
            assert(here.skip(marker@.len() as int) =~= s@.skip(at + marker@.len()));
            return Some(tail(s, at + wanted.len()));
        }
        proof {
            if begins_with(here, marker@) {
                assert(s@.subrange(at as int, at + marker@.len()) =~= here.subrange(
                    0,
                    marker@.len() as int,
                ));
            }
        }
        if at == end {
            return None;
        }
        assert(here.drop_first() =~= s@.skip(at + 1));
        at += 1;
    }
}

/// A text has the characters of what it begins with.
pub proof fn lemma_begins_alike(s: Seq<char>, prefix: Seq<char>, i: int)
    requires
        0 <= i < prefix.len(),
    ensures
        begins_with(s, prefix) ==> s[i] == prefix[i],
{
    if begins_with(s, prefix) {
        assert(s.subrange(0, prefix.len() as int)[i] == s[i]);
    }
}

/// What follows a marker is the end of the whole.
pub proof fn lemma_after_first_is_end(s: Seq<char>, marker: Seq<char>)
    ensures
        after_first(s, marker) matches Some(rest) ==> rest.len() <= s.len() && rest == s.skip(
            s.len() - rest.len(),
        ),
    decreases s.len(),
{
    if !begins_with(s, marker) && s.len() > 0 {
        lemma_after_first_is_end(s.drop_first(), marker);
        if let Some(rest) = after_first(s.drop_first(), marker) {
            assert(s.skip(s.len() - rest.len()) =~= s.drop_first().skip(
                s.drop_first().len() - rest.len(),
            ));
        }
    }
}

/// `c`, with an ASCII capital letter replaced by the small one.
fn lower_char(c: char) -> (lower: char)
    ensures
        lower == ascii_lower_char(c),
{
    if 'A' <= c && c <= 'Z' {
        (c as u8 + 32) as char
    } else {
        c
    }
}

/// The characters of `s`, with ASCII capital letters replaced by small ones.
pub fn to_ascii_lowercase(s: &str) -> (lower: Vec<char>)
    ensures
        lower@ == ascii_lower(s@),
{
    let mut lower: Vec<char> = Vec::new();
    for c in it: s.chars()
        invariant
            it.seq() == s@,
            lower@ == ascii_lower(s@).take(it.index()),
    {
        lower.push(lower_char(c));
    }
    assert(ascii_lower(s@).take(s@.len() as int) == ascii_lower(s@));
    lower
}

/// Whether two strings are the same but for the case of their ASCII letters.
pub fn eq_ignore_ascii_case(a: &str, b: &str) -> (same: bool)
    ensures
        same == (ascii_lower(a@) == ascii_lower(b@)),
{
    let left = to_ascii_lowercase(a);
    let right = to_ascii_lowercase(b);
    if left.len() != right.len() {
        return false;
    }
    assert(left@.subrange(0, right@.len() as int) =~= left@);
    occurs_from(&left, &right, 0)
}

/// Whether `c` is white space.
pub fn is_whitespace(c: char) -> (white: bool)
    ensures
        white == is_white_space(c),
{
    ('\u{9}' <= c && c <= '\u{d}') || c == '\u{20}' || c == '\u{85}' || c == '\u{a0}' || c
        == '\u{1680}' || ('\u{2000}' <= c && c <= '\u{200a}') || c == '\u{2028}' || c == '\u{2029}'
        || c == '\u{202f}' || c == '\u{205f}' || c == '\u{3000}'
}

/// Whether `s` holds nothing but white space.
pub fn blank(s: &str) -> (blank: bool)
    ensures
        blank == is_blank(s@),
{
    let chars = chars_of(s);
    let mut i: usize = 0;
    while i < chars.len()
        invariant
            chars@ == s@,
            i <= chars@.len(),
            forall|j: int| 0 <= j < i ==> is_white_space(#[trigger] s@[j]),
        decreases chars@.len() - i,
    {
        if !is_whitespace(chars[i]) {
            assert(!is_white_space(s@[i as int]));
            return false;
        }
        i += 1;
    }
    true
}

/// The characters of `s` from the first that is not white space.
pub fn trim_start(s: &str) -> (rest: Vec<char>)
    ensures
        rest@ == without_leading_space(s@),
{
    let mut rest = chars_of(s);
    while rest.len() > 0 && is_whitespace(rest[0])
        invariant
            without_leading_space(rest@) == without_leading_space(s@),
        decreases rest@.len(),
    {
        let ghost before = rest@;
        rest.remove(0);
        assert(rest@ =~= before.drop_first());
    }
    rest
}

/// The digit of a number below ten, as text.
fn digit_text(n: u8) -> (text: &'static str)
    requires
        n < 10,
    ensures
        text@ == seq![digit(n as int)],
{
    proof {
        reveal_strlit("0");
        reveal_strlit("1");
        reveal_strlit("2");
        reveal_strlit("3");
        reveal_strlit("4");
        reveal_strlit("5");
        reveal_strlit("6");
        reveal_strlit("7");
        reveal_strlit("8");
        reveal_strlit("9");
    }
    match n {
        0 => "0",
        1 => "1",
        2 => "2",
        3 => "3",
        4 => "4",
        5 => "5",
        6 => "6",
        7 => "7",
        8 => "8",
        _ => "9",
    }
}

/// `n` in decimal.
pub fn decimal_text(n: u128) -> (text: String)
    ensures
        text@ == decimal(n as nat),
    decreases n,
{
    if n < 10 {
        digit_text(n as u8).to_owned()
    } else {
        decimal_text(n / 10).concat(digit_text((n % 10) as u8))
    }
}

/// `a` followed by `b`.
pub fn joined(a: &str, b: &str) -> (text: String)
    ensures
        text@ == a@ + b@,
{
    a.to_owned().concat(b)
}

} // verus!
