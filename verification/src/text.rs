//! Character-level predicates and helpers shared by the validators.
//!
//! Names, subjects and e-mail addresses are judged character by
//! character; the spec functions here give those judgements a single
//! mathematical definition over `Seq<char>`, and the executable
//! helpers are verified against them.

use vstd::prelude::*;

verus! {

/// The characters that trimming removes: the Unicode White_Space set,
/// as `str::trim` recognises it.
pub open spec fn is_space_char(c: char) -> bool {
    let n = c as u32;
    ||| n == 0x09
    ||| n == 0x0A
    ||| n == 0x0B
    ||| n == 0x0C
    ||| n == 0x0D
    ||| n == 0x20
    ||| n == 0x85
    ||| n == 0xA0
    ||| n == 0x1680
    ||| (0x2000 <= n && n <= 0x200A)
    ||| n == 0x2028
    ||| n == 0x2029
    ||| n == 0x202F
    ||| n == 0x205F
    ||| n == 0x3000
}

/// Decides [`is_space_char`] for a single character.
pub fn is_space_char_exec(c: char) -> (r: bool)
    ensures
        r == is_space_char(c),
{
    let n = c as u32;
    n == 0x09 || n == 0x0A || n == 0x0B || n == 0x0C || n == 0x0D || n == 0x20 || n == 0x85
        || n == 0xA0 || n == 0x1680 || (0x2000 <= n && n <= 0x200A) || n == 0x2028 || n == 0x2029
        || n == 0x202F || n == 0x205F || n == 0x3000
}

/// An ASCII digit, '0' through '9'.
pub open spec fn is_digit_char(c: char) -> bool {
    48 <= c as u32 <= 57
}

/// True when the text holds nothing but whitespace, so trimming it
/// leaves the empty string.
pub open spec fn trims_to_empty(s: Seq<char>) -> bool {
    forall|i: int| 0 <= i < s.len() ==> is_space_char(s[i])
}

/// True when the text holds at least one ASCII digit.
pub open spec fn has_digit(s: Seq<char>) -> bool {
    exists|i: int| 0 <= i < s.len() && is_digit_char(s[i])
}

/// True when the text holds the character `c`.
pub open spec fn has_char(s: Seq<char>, c: char) -> bool {
    exists|i: int| 0 <= i < s.len() && s[i] == c
}

/// Collects the characters of a string slice into a vector, so the
/// verified loops below can index them.
pub fn chars_of(s: &str) -> (r: Vec<char>)
    ensures
        r@ == s@,
{
    let mut r: Vec<char> = Vec::new();
    for c in it: s.chars()
        invariant
            it.seq() == s@,
            r@ == it.seq().take(it.index() as int),
    {
        r.push(c);
    }
    proof {
        assert(r@ =~= s@);
    }
    r
}

/// Decides whether the text trims to the empty string.
pub fn trims_to_empty_exec(cs: &Vec<char>) -> (r: bool)
    ensures
        r == trims_to_empty(cs@),
{
    let mut i: usize = 0;
    while i < cs.len()
        invariant
            0 <= i <= cs@.len(),
            forall|j: int| 0 <= j < i ==> is_space_char(cs@[j]),
        decreases cs@.len() - i,
    {
        if !is_space_char_exec(cs[i]) {
            assert(!is_space_char(cs@[i as int]));
            return false;
        }
        i = i + 1;
    }
    true
}

/// Decides whether the text holds an ASCII digit.
pub fn has_digit_exec(cs: &Vec<char>) -> (r: bool)
    ensures
        r == has_digit(cs@),
{
    let mut i: usize = 0;
    while i < cs.len()
        invariant
            0 <= i <= cs@.len(),
            forall|j: int| 0 <= j < i ==> !is_digit_char(cs@[j]),
        decreases cs@.len() - i,
    {
        let c = cs[i];
        let code = c as u32;
        if 48 <= code && code <= 57 {
            assert(is_digit_char(cs@[i as int]));
            return true;
        }
        i = i + 1;
    }
    false
}

/// Decides whether the text holds the character `c`.
pub fn has_char_exec(cs: &Vec<char>, c: char) -> (r: bool)
    ensures
        r == has_char(cs@, c),
{
    let mut i: usize = 0;
    while i < cs.len()
        invariant
            0 <= i <= cs@.len(),
            forall|j: int| 0 <= j < i ==> cs@[j] != c,
        decreases cs@.len() - i,
    {
        if cs[i] == c {
            return true;
        }
        i = i + 1;
    }
    false
}

/// Compares two string slices for character-wise equality.
pub fn str_eq(a: &str, b: &str) -> (r: bool)
    ensures
        r == (a@ == b@),
{
    let ca = chars_of(a);
    let cb = chars_of(b);
    if ca.len() != cb.len() {
        return false;
    }
    let mut i: usize = 0;
    while i < ca.len()
        invariant
            ca@ == a@,
            cb@ == b@,
            ca@.len() == cb@.len(),
            0 <= i <= ca@.len(),
            forall|j: int| 0 <= j < i ==> ca@[j] == cb@[j],
        decreases ca@.len() - i,
    {
        if ca[i] != cb[i] {
            return false;
        }
        i = i + 1;
    }
    proof {
        assert(a@ =~= b@);
    }
    true
}

} // verus!
