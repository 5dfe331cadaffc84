//! Identifier spelling predicates.
//!
//! Two pure, stateless predicates over a name's characters: the language's
//! identifier grammar (a letter or underscore, then letters, digits or
//! underscores), and the style rule that flags a name written as one
//! unbroken alphanumeric run with no word separator.

use vstd::prelude::*;

verus! {

/// Whether `c` is an ASCII letter.
pub open spec fn is_letter(c: char) -> bool {
    ||| ('a' <= c && c <= 'z')
    ||| ('A' <= c && c <= 'Z')
}

/// Whether `c` is an ASCII digit.
pub open spec fn is_digit(c: char) -> bool {
    '0' <= c && c <= '9'
}

/// Whether `c` may open an identifier: a letter or an underscore.
pub open spec fn is_ident_start(c: char) -> bool {
    is_letter(c) || c == '_'
}

/// Whether `c` may continue an identifier: a letter, a digit or an
/// underscore.
pub open spec fn is_ident_continue(c: char) -> bool {
    is_letter(c) || is_digit(c) || c == '_'
}

/// The language's identifier grammar: nonempty, opening with a letter or
/// underscore, continuing with letters, digits or underscores.
pub open spec fn valid_value_name(s: Seq<char>) -> bool {
    &&& s.len() > 0
    &&& is_ident_start(s[0])
    &&& forall|i: int| 0 <= i < s.len() ==> is_ident_continue(#[trigger] s[i])
}

/// The style rule's pattern: one unbroken alphanumeric run starting with a
/// letter, so the name carries no word-separator character at all.
pub open spec fn single_run_name(s: Seq<char>) -> bool {
    &&& s.len() > 0
    &&& is_letter(s[0])
    &&& forall|i: int| 0 <= i < s.len() ==> is_letter(#[trigger] s[i]) || is_digit(s[i])
}

/// Decides whether `c` may continue an identifier.
fn ident_continue_char(c: char) -> (r: bool)
    ensures
        r == is_ident_continue(c),
{
    ('a' <= c && c <= 'z') || ('A' <= c && c <= 'Z') || ('0' <= c && c <= '9') || c == '_'
}

/// Decides whether the text of `s` matches the identifier grammar.
pub fn is_valid_value_name(s: &str) -> (r: bool)
    ensures
        r == valid_value_name(s@),
{
    let len = s.unicode_len();
    if len == 0 {
        return false;
    }
    let first = s.get_char(0);
    if !(('a' <= first && first <= 'z') || ('A' <= first && first <= 'Z') || first == '_') {
        return false;
    }
    let mut i: usize = 0;
    while i < len
        invariant
            len == s@.len(),
            i <= len,
            forall|j: int| 0 <= j < i ==> is_ident_continue(#[trigger] s@[j]),
        decreases len - i,
    {
        if !ident_continue_char(s.get_char(i)) {
            return false;
        }
        i += 1;
    }
    true
}

/// Decides whether the text of `s` matches the style rule's pattern.
pub fn is_single_run_name(s: &str) -> (r: bool)
    ensures
        r == single_run_name(s@),
{
    let len = s.unicode_len();
    if len == 0 {
        return false;
    }
    let first = s.get_char(0);
    if !(('a' <= first && first <= 'z') || ('A' <= first && first <= 'Z')) {
        return false;
    }
    let mut i: usize = 0;
    while i < len
        invariant
            len == s@.len(),
            i <= len,
            forall|j: int| 0 <= j < i ==> is_letter(#[trigger] s@[j]) || is_digit(s@[j]),
        decreases len - i,
    {
        let c = s.get_char(i);
        if !(('a' <= c && c <= 'z') || ('A' <= c && c <= 'Z') || ('0' <= c && c <= '9')) {
            return false;
        }
        i += 1;
    }
    true
}

} // verus!
