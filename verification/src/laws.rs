//! Laws the library keeps: how lookups treat casing variants of a
//! set key, when they fail, and what every enumeration preserves.

use vstd::prelude::*;
use crate::casefold::{Folding, keys_equal, lower_key, upper_key};
use crate::lookup::{
    lemma_lower_find_first, lemma_uncased_find_first, lemma_upper_find_first, lower_find,
    uncased_find, upper_find,
};
use crate::vars::{lower_view, uncased_view, upper_view};

verus! {

/// A caseless lookup treats caseless-equal queries alike: two keys
/// with the same folded image give the same result, whatever the
/// snapshot holds.
pub proof fn lemma_uncased_find_respects_folding(
    mode: Folding,
    env: Seq<(String, String)>,
    k1: Seq<char>,
    k2: Seq<char>,
)
    requires
        keys_equal(mode, k1, k2),
    ensures
        uncased_find(mode, env, k1) == uncased_find(mode, env, k2),
    decreases env.len(),
{
    if env.len() > 0 {
        lemma_uncased_find_respects_folding(mode, env.drop_first(), k1, k2);
    }
}

/// A key that is set is found under any casing variant: if entry `i`
/// holds `(K, V)`, no earlier key is caseless-equal to `K`, and the
/// query folds like `K`, then the caseless lookup of the query
/// yields `V`.
pub proof fn lemma_uncased_lookup_casing_variant(
    mode: Folding,
    env: Seq<(String, String)>,
    i: int,
    query: Seq<char>,
)
    requires
        0 <= i < env.len(),
        forall|j: int| 0 <= j < i ==> !keys_equal(mode, env[j].0@, env[i].0@),
        keys_equal(mode, query, env[i].0@),
    ensures
        uncased_find(mode, env, query) == Some(env[i].1@),
{
    lemma_uncased_find_respects_folding(mode, env, query, env[i].0@);
    lemma_uncased_find_first(mode, env, env[i].0@, i);
}

/// A key that is set is found by its lowercased form: if entry `i`
/// holds `(K, V)` and no earlier key lowercases to the same string,
/// then the lowercased lookup of `lowercase(K)` yields `V`.
pub proof fn lemma_lower_lookup_finds_set_key(mode: Folding, env: Seq<(String, String)>, i: int)
    requires
        0 <= i < env.len(),
        forall|j: int| 0 <= j < i ==> lower_key(mode, env[j].0@) != lower_key(mode, env[i].0@),
    ensures
        lower_find(mode, env, lower_key(mode, env[i].0@)) == Some(env[i].1@),
{
    lemma_lower_find_first(mode, env, lower_key(mode, env[i].0@), i);
}

/// A key that is set is found by its UPPERCASED form: if entry `i`
/// holds `(K, V)` and no earlier key UPPERCASES to the same string,
/// then the UPPERCASED lookup of `uppercase(K)` yields `V`.
pub proof fn lemma_upper_lookup_finds_set_key(mode: Folding, env: Seq<(String, String)>, i: int)
    requires
        0 <= i < env.len(),
        forall|j: int| 0 <= j < i ==> upper_key(mode, env[j].0@) != upper_key(mode, env[i].0@),
    ensures
        upper_find(mode, env, upper_key(mode, env[i].0@)) == Some(env[i].1@),
{
    lemma_upper_find_first(mode, env, upper_key(mode, env[i].0@), i);
}

/// Every enumeration keeps the snapshot's shape: as many pairs as
/// the snapshot, every value unchanged, and each key transformed
/// only as its presentation asks — left alone, lowercased, or
/// UPPERCASED.
pub proof fn lemma_enumerations_preserve_shape(mode: Folding, env: Seq<(String, String)>)
    ensures
        uncased_view(env).len() == env.len(),
        lower_view(mode, env).len() == env.len(),
        upper_view(mode, env).len() == env.len(),
        forall|i: int|
            0 <= i < env.len() ==> #[trigger] uncased_view(env)[i] == (env[i].0@, env[i].1@),
        forall|i: int|
            0 <= i < env.len() ==> #[trigger] lower_view(mode, env)[i] == (
                lower_key(mode, env[i].0@),
                env[i].1@,
            ),
        forall|i: int|
            0 <= i < env.len() ==> #[trigger] upper_view(mode, env)[i] == (
                upper_key(mode, env[i].0@),
                env[i].1@,
            ),
{
}

/// A caseless lookup is a function of the snapshot and the query
/// alone: any two results of it on the same snapshot and query are
/// identical, so repeating a call without changing the environment
/// between the calls changes nothing.
pub proof fn lemma_uncased_lookup_idempotent(
    mode: Folding,
    env: Seq<(String, String)>,
    key: Seq<char>,
    r1: Option<Seq<char>>,
    r2: Option<Seq<char>>,
)
    requires
        r1 == uncased_find(mode, env, key),
        r2 == uncased_find(mode, env, key),
    ensures
        r1 == r2,
{
}

/// As `lemma_uncased_lookup_idempotent`, for the lowercased lookup.
pub proof fn lemma_lower_lookup_idempotent(
    mode: Folding,
    env: Seq<(String, String)>,
    key: Seq<char>,
    r1: Option<Seq<char>>,
    r2: Option<Seq<char>>,
)
    requires
        r1 == lower_find(mode, env, key),
        r2 == lower_find(mode, env, key),
    ensures
        r1 == r2,
{
}

/// As `lemma_uncased_lookup_idempotent`, for the UPPERCASED lookup.
pub proof fn lemma_upper_lookup_idempotent(
    mode: Folding,
    env: Seq<(String, String)>,
    key: Seq<char>,
    r1: Option<Seq<char>>,
    r2: Option<Seq<char>>,
)
    requires
        r1 == upper_find(mode, env, key),
        r2 == upper_find(mode, env, key),
    ensures
        r1 == r2,
{
}

} // verus!
