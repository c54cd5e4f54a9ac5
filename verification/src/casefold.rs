//! Case-folding policies for keys: ASCII-only folding, fully verified,
//! and full-Unicode folding through outside code behind trusted wrappers.

use vstd::prelude::*;

verus! {

/// Which case-folding policy the library applies to keys.
///
/// The policy is chosen once by the caller and used for a whole
/// snapshot; values are never folded, only keys.
#[derive(Clone, Copy, Debug, PartialEq, Eq, Structural)]
pub enum Folding {
    /// Only the ASCII letters `A`–`Z` / `a`–`z` fold; every other
    /// character passes through unchanged.
    Ascii,
    /// Full Unicode case mapping, including multi-character expansions.
    Unicode,
}

/// The ASCII lowercase image of one character: `A`–`Z` map to `a`–`z`,
/// everything else is unchanged.
pub open spec fn ascii_lower_char(c: char) -> char {
    if 'A' <= c && c <= 'Z' {
        ((c as u32) + 32) as char
    } else {
        c
    }
}

/// The ASCII UPPERCASE image of one character: `a`–`z` map to `A`–`Z`,
/// everything else is unchanged.
pub open spec fn ascii_upper_char(c: char) -> char {
    if 'a' <= c && c <= 'z' {
        ((c as u32) - 32) as char
    } else {
        c
    }
}

/// The ASCII lowercase image of a whole string, character by character.
pub open spec fn ascii_lower(s: Seq<char>) -> Seq<char> {
    s.map_values(|c: char| ascii_lower_char(c))
}

/// The ASCII UPPERCASE image of a whole string, character by character.
pub open spec fn ascii_upper(s: Seq<char>) -> Seq<char> {
    s.map_values(|c: char| ascii_upper_char(c))
}

/// The full Unicode case fold of a string, as `unicase` computes it:
/// the concatenation of each character's fold, a function of the
/// characters alone. Two strings are caseless-equal exactly when their
/// folds agree.
pub uninterp spec fn uni_fold(s: Seq<char>) -> Seq<char>;

/// The full Unicode lowercase image of a string, as `str::to_lowercase`
/// computes it: a function of the characters alone.
pub uninterp spec fn uni_lower(s: Seq<char>) -> Seq<char>;

/// The full Unicode UPPERCASE image of a string, as `str::to_uppercase`
/// computes it: a function of the characters alone.
pub uninterp spec fn uni_upper(s: Seq<char>) -> Seq<char>;

/// Relies on `unicase::eq`, which compares `UniCase::new(a)` with
/// `UniCase::new(b)`: equality holds exactly when the two strings'
/// full Unicode case folds are the same character sequence (the ASCII
/// fast path folds `A`–`Z` the same way the full table does).
#[verifier::external_body]
fn unicase_eq(a: &str, b: &str) -> (r: bool)
    ensures
        r == (uni_fold(a@) == uni_fold(b@)),
{
    unicase::eq(a, b)
}

/// Relies on `str::to_lowercase`: the full Unicode lowercase mapping,
/// determined by the input's characters alone.
#[verifier::external_body]
fn unicode_lowercase(s: &str) -> (r: String)
    ensures
        r@ == uni_lower(s@),
{
    s.to_lowercase()
}

/// Relies on `str::to_uppercase`: the full Unicode UPPERCASE mapping,
/// determined by the input's characters alone.
#[verifier::external_body]
fn unicode_uppercase(s: &str) -> (r: String)
    ensures
        r@ == uni_upper(s@),
{
    s.to_uppercase()
}

/// Relies on `String::push`: appends the given character at the end.
#[verifier::external_body]
fn push_char(s: &mut String, c: char)
    ensures
        final(s)@ == old(s)@.push(c),
{
    s.push(c);
}

/// The folded image of a key under a policy: what case-insensitive
/// comparison of keys compares.
pub open spec fn folded_key(mode: Folding, s: Seq<char>) -> Seq<char> {
    match mode {
        Folding::Ascii => ascii_lower(s),
        Folding::Unicode => uni_fold(s),
    }
}

/// Two keys are equal under a policy when their folded images agree.
pub open spec fn keys_equal(mode: Folding, a: Seq<char>, b: Seq<char>) -> bool {
    folded_key(mode, a) == folded_key(mode, b)
}

/// The lowercase image of a key under a policy.
pub open spec fn lower_key(mode: Folding, s: Seq<char>) -> Seq<char> {
    match mode {
        Folding::Ascii => ascii_lower(s),
        Folding::Unicode => uni_lower(s),
    }
}

/// The UPPERCASE image of a key under a policy.
pub open spec fn upper_key(mode: Folding, s: Seq<char>) -> Seq<char> {
    match mode {
        Folding::Ascii => ascii_upper(s),
        Folding::Unicode => uni_upper(s),
    }
}

/// Lowercase one character under the ASCII policy.
pub fn to_ascii_lower_char(c: char) -> (r: char)
    ensures
        r == ascii_lower_char(c),
{
    if 'A' <= c && c <= 'Z' {
        match c {
            'A' => 'a',
            'B' => 'b',
            'C' => 'c',
            'D' => 'd',
            'E' => 'e',
            'F' => 'f',
            'G' => 'g',
            'H' => 'h',
            'I' => 'i',
            'J' => 'j',
            'K' => 'k',
            'L' => 'l',
            'M' => 'm',
            'N' => 'n',
            'O' => 'o',
            'P' => 'p',
            'Q' => 'q',
            'R' => 'r',
            'S' => 's',
            'T' => 't',
            'U' => 'u',
            'V' => 'v',
            'W' => 'w',
            'X' => 'x',
            'Y' => 'y',
            _ => 'z',
        }
    } else {
        c
    }
}

/// UPPERCASE one character under the ASCII policy.
pub fn to_ascii_upper_char(c: char) -> (r: char)
    ensures
        r == ascii_upper_char(c),
{
    if 'a' <= c && c <= 'z' {
        match c {
            'a' => 'A',
            'b' => 'B',
            'c' => 'C',
            'd' => 'D',
            'e' => 'E',
            'f' => 'F',
            'g' => 'G',
            'h' => 'H',
            'i' => 'I',
            'j' => 'J',
            'k' => 'K',
            'l' => 'L',
            'm' => 'M',
            'n' => 'N',
            'o' => 'O',
            'p' => 'P',
            'q' => 'Q',
            'r' => 'R',
            's' => 'S',
            't' => 'T',
            'u' => 'U',
            'v' => 'V',
            'w' => 'W',
            'x' => 'X',
            'y' => 'Y',
            _ => 'Z',
        }
    } else {
        c
    }
}

/// Lowercase a whole string under the ASCII policy.
pub fn ascii_lowercase(s: &str) -> (r: String)
    ensures
        r@ == ascii_lower(s@),
{
    let n = s.unicode_len();
    let mut out = String::new();
    let mut i: usize = 0;
    while i < n
        invariant
            n == s@.len(),
            i <= n,
            out@ == ascii_lower(s@.subrange(0, i as int)),
        decreases n - i,
    {
        let c = s.get_char(i);
        push_char(&mut out, to_ascii_lower_char(c));
        i = i + 1;
        proof {
            assert(s@.subrange(0, i as int) =~= s@.subrange(0, i - 1).push(s@[i - 1]));
            assert(ascii_lower(s@.subrange(0, i as int)) =~= ascii_lower(
                s@.subrange(0, i - 1),
            ).push(ascii_lower_char(s@[i - 1])));
        }
    }
    proof {
        assert(s@.subrange(0, n as int) =~= s@);
    }
    out
}

/// UPPERCASE a whole string under the ASCII policy.
pub fn ascii_uppercase(s: &str) -> (r: String)
    ensures
        r@ == ascii_upper(s@),
{
    let n = s.unicode_len();
    let mut out = String::new();
    let mut i: usize = 0;
    while i < n
        invariant
            n == s@.len(),
            i <= n,
            out@ == ascii_upper(s@.subrange(0, i as int)),
        decreases n - i,
    {
        let c = s.get_char(i);
        push_char(&mut out, to_ascii_upper_char(c));
        i = i + 1;
        proof {
            assert(s@.subrange(0, i as int) =~= s@.subrange(0, i - 1).push(s@[i - 1]));
            assert(ascii_upper(s@.subrange(0, i as int)) =~= ascii_upper(
                s@.subrange(0, i - 1),
            ).push(ascii_upper_char(s@[i - 1])));
        }
    }
    proof {
        assert(s@.subrange(0, n as int) =~= s@);
    }
    out
}

/// Compare two strings ignoring ASCII case.
pub fn ascii_eq_ignore_case(a: &str, b: &str) -> (r: bool)
    ensures
        r == keys_equal(Folding::Ascii, a@, b@),
{
    let an = a.unicode_len();
    let bn = b.unicode_len();
    if an != bn {
        proof {
            assert(ascii_lower(a@).len() != ascii_lower(b@).len());
        }
        return false;
    }
    let mut i: usize = 0;
    while i < an
        invariant
            an == a@.len(),
            an == b@.len(),
            i <= an,
            forall|j: int|
                0 <= j < i ==> ascii_lower_char(a@[j]) == ascii_lower_char(b@[j]),
        decreases an - i,
    {
        let ca = to_ascii_lower_char(a.get_char(i));
        let cb = to_ascii_lower_char(b.get_char(i));
        if ca != cb {
            proof {
                assert(ascii_lower(a@)[i as int] != ascii_lower(b@)[i as int]);
            }
            return false;
        }
        i = i + 1;
    }
    proof {
        assert(ascii_lower(a@) =~= ascii_lower(b@));
    }
    true
}

/// Compare two keys under a policy, ignoring case as the policy says.
pub fn keys_eq(mode: Folding, a: &str, b: &str) -> (r: bool)
    ensures
        r == keys_equal(mode, a@, b@),
{
    match mode {
        Folding::Ascii => ascii_eq_ignore_case(a, b),
        Folding::Unicode => unicase_eq(a, b),
    }
}

/// Lowercase a key under a policy.
pub fn to_lower_key(mode: Folding, s: &str) -> (r: String)
    ensures
        r@ == lower_key(mode, s@),
{
    match mode {
        Folding::Ascii => ascii_lowercase(s),
        Folding::Unicode => unicode_lowercase(s),
    }
}

/// UPPERCASE a key under a policy.
pub fn to_upper_key(mode: Folding, s: &str) -> (r: String)
    ensures
        r@ == upper_key(mode, s@),
{
    match mode {
        Folding::Ascii => ascii_uppercase(s),
        Folding::Unicode => unicode_uppercase(s),
    }
}

} // verus!
