//! Single-key lookup over an environment snapshot: a linear scan,
//! first match wins, under each of the three key presentations.

use vstd::prelude::*;
use crate::casefold::{
    Folding, keys_equal, keys_eq, lower_key, to_lower_key, to_upper_key, upper_key,
};

verus! {

/// Exact (case-sensitive) equality of two strings.
fn str_eq(a: &str, b: &str) -> (r: bool)
    ensures
        r == (a@ == b@),
{
    let an = a.unicode_len();
    let bn = b.unicode_len();
    if an != bn {
        return false;
    }
    let mut i: usize = 0;
    while i < an
        invariant
            an == a@.len(),
            an == b@.len(),
            i <= an,
            forall|j: int| 0 <= j < i ==> a@[j] == b@[j],
        decreases an - i,
    {
        if a.get_char(i) != b.get_char(i) {
            return false;
        }
        i = i + 1;
    }
    proof {
        assert(a@ =~= b@);
    }
    true
}

/// The one way a lookup can fail: no key of the snapshot matched.
#[derive(Clone, Copy, Debug, PartialEq, Eq, Structural)]
pub enum LookupError {
    /// No pair of the snapshot has a matching key.
    NotFound,
}

/// The value of the first pair whose key is caseless-equal to `key`
/// under `mode`, scanning the snapshot in order; `None` if no key
/// matches.
pub open spec fn uncased_find(mode: Folding, env: Seq<(String, String)>, key: Seq<char>) -> Option<
    Seq<char>,
>
    decreases env.len(),
{
    if env.len() == 0 {
        None
    } else if keys_equal(mode, env[0].0@, key) {
        Some(env[0].1@)
    } else {
        uncased_find(mode, env.drop_first(), key)
    }
}

/// The value of the first pair whose lowercased key is exactly `key`,
/// scanning the snapshot in order; `None` if no key matches.
pub open spec fn lower_find(mode: Folding, env: Seq<(String, String)>, key: Seq<char>) -> Option<
    Seq<char>,
>
    decreases env.len(),
{
    if env.len() == 0 {
        None
    } else if lower_key(mode, env[0].0@) == key {
        Some(env[0].1@)
    } else {
        lower_find(mode, env.drop_first(), key)
    }
}

/// The value of the first pair whose UPPERCASED key is exactly `key`,
/// scanning the snapshot in order; `None` if no key matches.
pub open spec fn upper_find(mode: Folding, env: Seq<(String, String)>, key: Seq<char>) -> Option<
    Seq<char>,
>
    decreases env.len(),
{
    if env.len() == 0 {
        None
    } else if upper_key(mode, env[0].0@) == key {
        Some(env[0].1@)
    } else {
        upper_find(mode, env.drop_first(), key)
    }
}

/// A caseless lookup fails exactly when no key of the snapshot is
/// caseless-equal to the query.
pub proof fn lemma_uncased_find_none(mode: Folding, env: Seq<(String, String)>, key: Seq<char>)
    ensures
        (uncased_find(mode, env, key) is None) <==> (forall|i: int|
            0 <= i < env.len() ==> !keys_equal(mode, env[i].0@, key)),
    decreases env.len(),
{
    if env.len() > 0 && !keys_equal(mode, env[0].0@, key) {
        lemma_uncased_find_none(mode, env.drop_first(), key);
        assert forall|i: int| 1 <= i < env.len() implies env.drop_first()[i - 1] == env[i] by {}
    }
}

/// A lowercased lookup fails exactly when no key of the snapshot
/// lowercases to the query.
pub proof fn lemma_lower_find_none(mode: Folding, env: Seq<(String, String)>, key: Seq<char>)
    ensures
        (lower_find(mode, env, key) is None) <==> (forall|i: int|
            0 <= i < env.len() ==> lower_key(mode, env[i].0@) != key),
    decreases env.len(),
{
    if env.len() > 0 && lower_key(mode, env[0].0@) != key {
        lemma_lower_find_none(mode, env.drop_first(), key);
        assert forall|i: int| 1 <= i < env.len() implies env.drop_first()[i - 1] == env[i] by {}
    }
}

/// An UPPERCASED lookup fails exactly when no key of the snapshot
/// uppercases to the query.
pub proof fn lemma_upper_find_none(mode: Folding, env: Seq<(String, String)>, key: Seq<char>)
    ensures
        (upper_find(mode, env, key) is None) <==> (forall|i: int|
            0 <= i < env.len() ==> upper_key(mode, env[i].0@) != key),
    decreases env.len(),
{
    if env.len() > 0 && upper_key(mode, env[0].0@) != key {
        lemma_upper_find_none(mode, env.drop_first(), key);
        assert forall|i: int| 1 <= i < env.len() implies env.drop_first()[i - 1] == env[i] by {}
    }
}

/// A caseless lookup returns the value of the first matching pair:
/// if entry `i` matches the query and no earlier entry does, the
/// result is entry `i`'s value.
pub proof fn lemma_uncased_find_first(
    mode: Folding,
    env: Seq<(String, String)>,
    key: Seq<char>,
    i: int,
)
    requires
        0 <= i < env.len(),
        keys_equal(mode, env[i].0@, key),
        forall|j: int| 0 <= j < i ==> !keys_equal(mode, env[j].0@, key),
    ensures
        uncased_find(mode, env, key) == Some(env[i].1@),
    decreases env.len(),
{
    if i > 0 {
        lemma_uncased_find_first(mode, env.drop_first(), key, i - 1);
        assert forall|j: int| 0 <= j < env.drop_first().len() implies env.drop_first()[j] == env[j + 1] by {}
    }
}

/// A lowercased lookup returns the value of the first pair whose
/// lowercased key is the query.
pub proof fn lemma_lower_find_first(
    mode: Folding,
    env: Seq<(String, String)>,
    key: Seq<char>,
    i: int,
)
    requires
        0 <= i < env.len(),
        lower_key(mode, env[i].0@) == key,
        forall|j: int| 0 <= j < i ==> lower_key(mode, env[j].0@) != key,
    ensures
        lower_find(mode, env, key) == Some(env[i].1@),
    decreases env.len(),
{
    if i > 0 {
        lemma_lower_find_first(mode, env.drop_first(), key, i - 1);
        assert forall|j: int| 0 <= j < env.drop_first().len() implies env.drop_first()[j] == env[j + 1] by {}
    }
}

/// An UPPERCASED lookup returns the value of the first pair whose
/// UPPERCASED key is the query.
pub proof fn lemma_upper_find_first(
    mode: Folding,
    env: Seq<(String, String)>,
    key: Seq<char>,
    i: int,
)
    requires
        0 <= i < env.len(),
        upper_key(mode, env[i].0@) == key,
        forall|j: int| 0 <= j < i ==> upper_key(mode, env[j].0@) != key,
    ensures
        upper_find(mode, env, key) == Some(env[i].1@),
    decreases env.len(),
{
    if i > 0 {
        lemma_upper_find_first(mode, env.drop_first(), key, i - 1);
        assert forall|j: int| 0 <= j < env.drop_first().len() implies env.drop_first()[j] == env[j + 1] by {}
    }
}

/// Get the value of `key` from the snapshot, comparing keys without
/// regard to case: the first pair whose key is caseless-equal to
/// `key` wins, and the lookup fails exactly when none is.
pub fn uncased_var(mode: Folding, vars: &Vec<(String, String)>, key: &str) -> (r: Result<
    String,
    LookupError,
>)
    ensures
        match r {
            Ok(v) => uncased_find(mode, vars@, key@) == Some(v@),
            Err(e) => e == LookupError::NotFound && uncased_find(mode, vars@, key@) is None,
        },
{
    let n = vars.len();
    let mut i: usize = 0;
    while i < n
        invariant
            n == vars@.len(),
            i <= n,
            forall|j: int| 0 <= j < i ==> !keys_equal(mode, vars@[j].0@, key@),
        decreases n - i,
    {
        if keys_eq(mode, vars[i].0.as_str(), key) {
            proof {
                lemma_uncased_find_first(mode, vars@, key@, i as int);
            }
            return Ok(vars[i].1.clone());
        }
        i = i + 1;
    }
    proof {
        lemma_uncased_find_none(mode, vars@, key@);
    }
    Err(LookupError::NotFound)
}

/// Get the value of an already-lowercased `key` from the snapshot:
/// each key of the snapshot is lowercased per `mode` and compared
/// exactly; the first match wins, and the lookup fails exactly when
/// none matches.
pub fn lower_var(mode: Folding, vars: &Vec<(String, String)>, key: &str) -> (r: Result<
    String,
    LookupError,
>)
    ensures
        match r {
            Ok(v) => lower_find(mode, vars@, key@) == Some(v@),
            Err(e) => e == LookupError::NotFound && lower_find(mode, vars@, key@) is None,
        },
{
    let n = vars.len();
    let mut i: usize = 0;
    while i < n
        invariant
            n == vars@.len(),
            i <= n,
            forall|j: int| 0 <= j < i ==> lower_key(mode, vars@[j].0@) != key@,
        decreases n - i,
    {
        let low = to_lower_key(mode, vars[i].0.as_str());
        if str_eq(low.as_str(), key) {
            proof {
                lemma_lower_find_first(mode, vars@, key@, i as int);
            }
            return Ok(vars[i].1.clone());
        }
        i = i + 1;
    }
    proof {
        lemma_lower_find_none(mode, vars@, key@);
    }
    Err(LookupError::NotFound)
}

/// Get the value of an already-UPPERCASED `key` from the snapshot:
/// each key of the snapshot is UPPERCASED per `mode` and compared
/// exactly; the first match wins, and the lookup fails exactly when
/// none matches.
pub fn upper_var(mode: Folding, vars: &Vec<(String, String)>, key: &str) -> (r: Result<
    String,
    LookupError,
>)
    ensures
        match r {
            Ok(v) => upper_find(mode, vars@, key@) == Some(v@),
            Err(e) => e == LookupError::NotFound && upper_find(mode, vars@, key@) is None,
        },
{
    let n = vars.len();
    let mut i: usize = 0;
    while i < n
        invariant
            n == vars@.len(),
            i <= n,
            forall|j: int| 0 <= j < i ==> upper_key(mode, vars@[j].0@) != key@,
        decreases n - i,
    {
        let up = to_upper_key(mode, vars[i].0.as_str());
        if str_eq(up.as_str(), key) {
            proof {
                lemma_upper_find_first(mode, vars@, key@, i as int);
            }
            return Ok(vars[i].1.clone());
        }
        i = i + 1;
    }
    proof {
        lemma_upper_find_none(mode, vars@, key@);
    }
    Err(LookupError::NotFound)
}

} // verus!

