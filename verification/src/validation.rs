//! Formats of the e-mail address and the phone number of a registration.

use vstd::prelude::*;
use crate::charclass::{ascii_letter, digit, word};
use crate::charclass::{is_ascii_letter, is_digit, is_word};
use crate::text::chars_of;

verus! {

/// A character of the part of an address before the `@`.
pub open spec fn is_local_char(c: char) -> bool {
    is_word(c) || c == '.' || c == '-'
}

/// A character of the host name of an address, up to its last label.
pub open spec fn is_domain_char(c: char) -> bool {
    is_ascii_letter(c) || is_digit(c) || c == '.' || c == '-'
}

/// Every character of `s` from index `lo` up to `hi` may stand before the `@`.
pub open spec fn all_local(s: Seq<char>, lo: int, hi: int) -> bool {
    forall|i: int| lo <= i < hi ==> is_local_char(#[trigger] s[i])
}

/// Every character of `s` from index `lo` up to `hi` may stand in a host name.
pub open spec fn all_domain(s: Seq<char>, lo: int, hi: int) -> bool {
    forall|i: int| lo <= i < hi ==> is_domain_char(#[trigger] s[i])
}

/// Every character of `s` from index `lo` up to `hi` is an ASCII letter.
pub open spec fn all_letters(s: Seq<char>, lo: int, hi: int) -> bool {
    forall|i: int| lo <= i < hi ==> is_ascii_letter(#[trigger] s[i])
}

/// Every character of `s` from index `lo` up to `hi` is a decimal digit.
pub open spec fn all_digits(s: Seq<char>, lo: int, hi: int) -> bool {
    forall|i: int| lo <= i < hi ==> is_digit(#[trigger] s[i])
}

/// `s` reads as an address with its `@` at index `at` and the dot before its
/// last label at index `dot`: a non-empty local part, a non-empty host name,
/// and a last label of two or more ASCII letters.
pub open spec fn email_split(s: Seq<char>, at: int, dot: int) -> bool {
    &&& 1 <= at
    &&& at + 2 <= dot
    &&& dot + 3 <= s.len()
    &&& s[at] == '@'
    &&& s[dot] == '.'
    &&& all_local(s, 0, at)
    &&& all_domain(s, at + 1, dot)
    &&& all_letters(s, dot + 1, s.len() as int)
}

/// The e-mail format: `local@host.label`, the whole text and nothing else.
pub open spec fn email_format(s: Seq<char>) -> bool {
    exists|at: int, dot: int| email_split(s, at, dot)
}

/// The digits of a phone number: `s` without its leading `+`, if it has one.
pub open spec fn phone_digits(s: Seq<char>) -> Seq<char> {
    if s.len() > 0 && s[0] == '+' {
        s.subrange(1, s.len() as int)
    } else {
        s
    }
}

/// The phone format: an optional `+`, a digit from 1 to 9, then between one
/// and fourteen more decimal digits.
pub open spec fn phone_format(s: Seq<char>) -> bool {
    let d = phone_digits(s);
    &&& 2 <= d.len() <= 15
    &&& '1' <= d[0] && d[0] <= '9'
    &&& all_digits(d, 1, d.len() as int)
}

fn local_char(c: char) -> (b: bool)
    ensures
        b == is_local_char(c),
{
    word(c) || c == '.' || c == '-'
}

fn domain_char(c: char) -> (b: bool)
    ensures
        b == is_domain_char(c),
{
    ascii_letter(c) || digit(c) || c == '.' || c == '-'
}

/// An address has exactly one way to be read: the `@` and the dot of any
/// reading stand where the first non-local character and the last non-letter
/// stand.
proof fn lemma_split_is_forced(s: Seq<char>, at: int, dot: int, first_stop: int, last_stop: int)
    requires
        email_split(s, at, dot),
        0 <= first_stop <= s.len(),
        all_local(s, 0, first_stop),
        first_stop < s.len() ==> !is_local_char(s[first_stop]),
        0 <= last_stop <= s.len(),
        all_letters(s, last_stop, s.len() as int),
        last_stop > first_stop + 1 ==> !is_ascii_letter(s[last_stop - 1]),
        last_stop >= first_stop + 1 || first_stop == s.len(),
    ensures
        at == first_stop,
        dot == last_stop - 1,
{
    // The `@` is no local character: it stands neither before the first
    // stop nor after it.
    assert(!is_local_char('@'));
    if at > first_stop {
        assert(is_local_char(s[first_stop]));
    }
    // The dot is no letter: it stands neither after the last stop nor, with
    // letters alone behind it, before it.
    assert(!is_ascii_letter('.'));
    if dot + 1 < last_stop {
        assert(is_ascii_letter(s[last_stop - 1]));
    }
}

/// Decides the e-mail format on the characters of a text.
pub fn email_chars_valid(s: &Vec<char>) -> (b: bool)
    ensures
        b == email_format(s@),
{
    let n = s.len();
    let mut at: usize = 0;
    while at < n && local_char(s[at])
        invariant
            at <= n,
            n == s@.len(),
            all_local(s@, 0, at as int),
        decreases n - at,
    {
        at += 1;
    }
    let mut end: usize = n;
    if at < n {
        while end > at + 1 && ascii_letter(s[end - 1])
            invariant
                at < n,
                at + 1 <= end <= n,
                n == s@.len(),
                all_letters(s@, end as int, n as int),
            decreases end,
        {
            end -= 1;
        }
    }
    assert forall|a: int, d: int| email_split(s@, a, d) implies a == at && d == end - 1 by {
        lemma_split_is_forced(s@, a, d, at as int, end as int);
    }
    if at == 0 || at >= n || s[at] != '@' {
        return false;
    }
    if end - at < 3 || n - end < 2 || s[end - 1] != '.' {
        return false;
    }
    let dot = end - 1;
    let mut k: usize = at + 1;
    while k < dot
        invariant
            at + 1 <= k <= dot,
            dot < n,
            n == s@.len(),
            all_domain(s@, at + 1, k as int),
            forall|a: int, d: int| email_split(s@, a, d) ==> a == at && d == dot,
        decreases dot - k,
    {
        if !domain_char(s[k]) {
            return false;
        }
        k += 1;
    }
    assert(email_split(s@, at as int, dot as int));
    true
}

/// Decides the phone format on the characters of a text.
pub fn phone_chars_valid(s: &Vec<char>) -> (b: bool)
    ensures
        b == phone_format(s@),
{
    let n = s.len();
    let start: usize = if n > 0 && s[0] == '+' { 1 } else { 0 };
    let ghost d = phone_digits(s@);
    if n - start < 2 || n - start > 15 {
        return false;
    }
    if !('1' <= s[start] && s[start] <= '9') {
        return false;
    }
    let mut k: usize = start + 1;
    while k < n
        invariant
            start + 1 <= k <= n,
            n == s@.len(),
            d == phone_digits(s@),
            d.len() == n - start,
            forall|i: int| 0 <= i < d.len() ==> d[i] == s@[i + start],
            all_digits(d, 1, k - start),
        decreases n - k,
    {
        if !digit(s[k]) {
            assert(d[k - start] == s@[k as int]);
            return false;
        }
        k += 1;
    }
    true
}

/// Whether `email` has the e-mail format.
pub fn is_valid_email(email: &str) -> (b: bool)
    ensures
        b == email_format(email@),
{
    let s = chars_of(email);
    email_chars_valid(&s)
}

/// Whether `phone` has the phone format.
pub fn validate_phone(phone: &str) -> (b: bool)
    ensures
        b == phone_format(phone@),
{
    let s = chars_of(phone);
    phone_chars_valid(&s)
}

} // verus!
