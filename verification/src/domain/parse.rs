//! The parsing vocabulary shared by the validated value types: the error enum,
//! the `Parseable` constructor trait, and the character rules each type
//! enforces.

use vstd::prelude::*;

use crate::strings::string_contains_char;

verus! {

/// Why a raw input was rejected by one of the validated value types.
#[derive(Debug)]
pub enum ParseError {
    /// The input exceeds the type's character limit; the payload is the limit.
    TooLong(usize),
    /// The input contains characters the type forbids; the payload lists each
    /// offending character once, in order of first occurrence.
    ContainsInvalidChars(String),
    /// The input is empty, or blank after trimming.
    Empty,
    /// The input falls short of the type's minimum length; the payload is the
    /// minimum.
    TooShort(usize),
    /// The input fails a semantic check; the payload describes it.
    Invalid(String),
}

/// A value that can only be obtained by validating raw input.
pub trait Parseable<T>: Sized {
    fn parse(input: T) -> Result<Self, ParseError>;
}

/// The character rule a validated type enforces; each rejects a different set.
#[derive(Clone, Copy)]
pub enum CharPolicy {
    /// Names reject a fixed set of markup-like characters.
    NameChars,
    /// Usernames allow only ASCII alphanumerics, `-` and `_`.
    UsernameChars,
    /// Passwords allow the printable ASCII range.
    PasswordChars,
}

/// The characters a `Name` may not contain.
pub open spec fn is_forbidden_name_char(c: char) -> bool {
    c == '/' || c == '@' || c == '\\' || c == '(' || c == ')' || c == '>' || c == '<' || c == '{'
        || c == '}' || c == '='
}

/// The characters a `Username` may contain: ASCII alphanumerics, `-` and `_`.
pub open spec fn is_username_char(c: char) -> bool {
    ('A' <= c && c <= 'Z') || ('a' <= c && c <= 'z') || ('0' <= c && c <= '9') || c == '-' || c
        == '_'
}

/// The characters a `Password` may contain: the printable ASCII range, space
/// through tilde.
pub open spec fn is_password_char(c: char) -> bool {
    ' ' <= c && c <= '~'
}

pub open spec fn char_rejected(policy: CharPolicy, c: char) -> bool {
    match policy {
        CharPolicy::NameChars => is_forbidden_name_char(c),
        CharPolicy::UsernameChars => !is_username_char(c),
        CharPolicy::PasswordChars => !is_password_char(c),
    }
}

pub open spec fn has_rejected_char(policy: CharPolicy, s: Seq<char>) -> bool {
    exists|i: int| 0 <= i < s.len() && char_rejected(policy, #[trigger] s[i])
}

/// The characters of `s` that `policy` rejects, each listed once, in order of
/// first occurrence.
pub open spec fn offending_chars(policy: CharPolicy, s: Seq<char>) -> Seq<char>
    decreases s.len(),
{
    if s.len() == 0 {
        Seq::empty()
    } else {
        let rest = offending_chars(policy, s.drop_last());
        let c = s.last();
        if char_rejected(policy, c) && !rest.contains(c) {
            rest.push(c)
        } else {
            rest
        }
    }
}

/// A character is listed among the offenders exactly when the policy rejects
/// it and it occurs in the input.
pub proof fn lemma_offending_chars_contains(policy: CharPolicy, s: Seq<char>, c: char)
    ensures
        offending_chars(policy, s).contains(c) <==> (s.contains(c) && char_rejected(policy, c)),
    decreases s.len(),
{
    if s.len() > 0 {
        lemma_offending_chars_contains(policy, s.drop_last(), c);
        let rest = offending_chars(policy, s.drop_last());
        if s.contains(c) && char_rejected(policy, c) {
            if c != s.last() {
                let i = choose|i: int| 0 <= i < s.len() && s[i] == c;
                assert(s.drop_last()[i] == c);
                assert(rest.contains(c));
            }
            if rest.contains(c) {
                let j = choose|j: int| 0 <= j < rest.len() && rest[j] == c;
                assert(offending_chars(policy, s)[j] == c);
            } else {
                assert(c == s.last());
                assert(offending_chars(policy, s) == rest.push(c));
                assert(rest.push(c)[rest.len() as int] == c);
            }
            assert(offending_chars(policy, s).contains(c));
        }
        if offending_chars(policy, s).contains(c) {
            if !s.drop_last().contains(c) {
                assert(s[s.len() - 1] == s.last());
            } else {
                let i = choose|i: int| 0 <= i < s.len() - 1 && s.drop_last()[i] == c;
                assert(s[i] == c);
            }
        }
    }
}

/// No character is rejected exactly when the list of offenders is empty.
pub proof fn lemma_no_offenders(policy: CharPolicy, s: Seq<char>)
    ensures
        offending_chars(policy, s).len() == 0 <==> !has_rejected_char(policy, s),
    decreases s.len(),
{
    if s.len() > 0 {
        lemma_no_offenders(policy, s.drop_last());
        if has_rejected_char(policy, s) {
            let i = choose|i: int| 0 <= i < s.len() && char_rejected(policy, s[i]);
            if i < s.len() - 1 {
                assert(char_rejected(policy, s.drop_last()[i]));
            } else {
                assert(s[i] == s.last());
                lemma_offending_chars_contains(policy, s, s.last());
                assert(s.contains(s.last()));
            }
        }
        if offending_chars(policy, s).len() > 0 {
            if offending_chars(policy, s.drop_last()).len() > 0 {
                let i = choose|i: int|
                    0 <= i < s.drop_last().len() && char_rejected(policy, s.drop_last()[i]);
                assert(char_rejected(policy, s[i]));
            } else {
                assert(char_rejected(policy, s.last()));
                assert(char_rejected(policy, s[s.len() - 1]));
            }
        }
    }
}

pub fn char_rejected_exec(policy: CharPolicy, c: char) -> (r: bool)
    ensures
        r == char_rejected(policy, c),
{
    match policy {
        CharPolicy::NameChars => c == '/' || c == '@' || c == '\\' || c == '(' || c == ')' || c
            == '>' || c == '<' || c == '{' || c == '}' || c == '=',
        CharPolicy::UsernameChars => !(('A' <= c && c <= 'Z') || ('a' <= c && c <= 'z') || ('0' <= c
            && c <= '9') || c == '-' || c == '_'),
        CharPolicy::PasswordChars => !(' ' <= c && c <= '~'),
    }
}

/// Collects the characters of `s` that `policy` rejects, deduplicated, in
/// order of first occurrence.
pub fn collect_offending_chars(policy: CharPolicy, s: &str) -> (r: String)
    ensures
        r@ == offending_chars(policy, s@),
        r@.len() == 0 <==> !has_rejected_char(policy, s@),
{
    let n = s.unicode_len();
    let mut out = String::new();
    let mut i: usize = 0;
    while i < n
        invariant
            i <= n,
            n == s@.len(),
            out@ == offending_chars(policy, s@.subrange(0, i as int)),
        decreases n - i,
    {
        let c = s.get_char(i);
        proof {
            assert(s@.subrange(0, i + 1).drop_last() =~= s@.subrange(0, i as int));
            assert(s@.subrange(0, i + 1).last() == s@[i as int]);
        }
        if char_rejected_exec(policy, c) && !string_contains_char(&out, c) {
            out.push(c);
        }
        i += 1;
    }
    proof {
        assert(s@.subrange(0, n as int) =~= s@);
        lemma_no_offenders(policy, s@);
    }
    out
}

} // verus!
