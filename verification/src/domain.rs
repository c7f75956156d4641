//! Tenant identifiers taken from e-mail addresses.

use vstd::prelude::*;
use vstd::string::*;

verus! {

/// Position of the first `@` of `s` at or after `from`; `s.len()` when there
/// is none.
pub open spec fn next_at(s: Seq<char>, from: int) -> int
    decreases s.len() - from,
{
    if from < 0 || from >= s.len() {
        s.len() as int
    } else if s[from] == '@' {
        from
    } else {
        next_at(s, from + 1)
    }
}

/// The domain of an address: what stands between its first `@` and its
/// second one, or its end. An address without `@` has the empty domain.
pub open spec fn domain_of(email: Seq<char>) -> Seq<char> {
    let first = next_at(email, 0);
    if first >= email.len() {
        Seq::empty()
    } else {
        email.subrange(first + 1, next_at(email, first + 1))
    }
}

/// `next_at` stays within the sequence, stops on an `@`, and passes none.
pub proof fn lemma_next_at(s: Seq<char>, from: int)
    requires
        0 <= from <= s.len(),
    ensures
        from <= next_at(s, from) <= s.len(),
        next_at(s, from) < s.len() ==> s[next_at(s, from)] == '@',
        forall|k: int| from <= k < next_at(s, from) ==> s[k] != '@',
    decreases s.len() - from,
{
    if from < s.len() && s[from] != '@' {
        lemma_next_at(s, from + 1);
    }
}

/// A domain never holds an `@`: of an address with several, only what
/// stands between the first two is kept.
pub proof fn lemma_domain_has_no_at(email: Seq<char>)
    ensures
        forall|k: int| 0 <= k < domain_of(email).len() ==> domain_of(email)[k] != '@',
{
    let first = next_at(email, 0);
    lemma_next_at(email, 0);
    if first < email.len() {
        lemma_next_at(email, first + 1);
    }
}

/// An address without any `@` has the empty domain.
pub proof fn lemma_no_at_no_domain(email: Seq<char>)
    requires
        forall|k: int| 0 <= k < email.len() ==> email[k] != '@',
    ensures
        domain_of(email) == Seq::<char>::empty(),
{
    lemma_next_at(email, 0);
}

/// Scans `s` from `from` to the next `@`, character by character.
fn find_at(s: &str, from: usize, len: usize) -> (at: usize)
    requires
        from <= len,
        len == s@.len(),
    ensures
        at == next_at(s@, from as int),
        from <= at <= len,
{
    let mut i: usize = from;
    while i < len && s.get_char(i) != '@'
        invariant
            from <= i <= len,
            len == s@.len(),
            next_at(s@, from as int) == next_at(s@, i as int),
        decreases len - i,
    {
        i = i + 1;
    }
    i
}

/// Scans an ASCII text from `from` to the next `@`, byte by byte.
fn find_at_ascii(s: &str, from: usize, len: usize) -> (at: usize)
    requires
        s.is_ascii(),
        from <= len,
        len == s@.len(),
    ensures
        at == next_at(s@, from as int),
        from <= at <= len,
{
    let mut i: usize = from;
    while i < len && s.get_ascii(i) != 0x40
        invariant
            s.is_ascii(),
            from <= i <= len,
            len == s@.len(),
            next_at(s@, from as int) == next_at(s@, i as int),
        decreases len - i,
    {
        i = i + 1;
    }
    i
}

/// Extracts the domain of an e-mail address.
///
/// The address is cut at every `@`; the second piece is the domain. An
/// address without `@` gives the empty string, and of an address with more
/// than one `@` everything after the second is dropped.
///
/// An ASCII address is scanned in one pass. Any other is read character
/// by character, each from the start of the address.
pub fn email_domain(email: &str) -> (domain: String)
    ensures
        domain@ == domain_of(email@),
{
    let len = email.unicode_len();
    if email.is_ascii() {
        let first = find_at_ascii(email, 0, len);
        if first >= len {
            String::new()
        } else {
            let second = find_at_ascii(email, first + 1, len);
            String::from_str(email.substring_ascii(first + 1, second))
        }
    } else {
        let first = find_at(email, 0, len);
        if first >= len {
            String::new()
        } else {
            let second = find_at(email, first + 1, len);
            String::from_str(email.substring_char(first + 1, second))
        }
    }
}

} // verus!
