//! Enumeration of an environment snapshot: lazy, single-pass walks
//! that present keys comparable-without-case, lowercased, or
//! UPPERCASED, always over the snapshot captured at construction.

use vstd::prelude::*;
use crate::casefold::{
    Folding, keys_equal, keys_eq, lower_key, to_lower_key, to_upper_key, upper_key,
};

verus! {

/// The pairs of a snapshot with keys left as they are, as character
/// sequences.
pub open spec fn uncased_view(env: Seq<(String, String)>) -> Seq<(Seq<char>, Seq<char>)> {
    env.map_values(|p: (String, String)| (p.0@, p.1@))
}

/// The pairs of a snapshot with every key lowercased per `mode` and
/// every value unchanged.
pub open spec fn lower_view(mode: Folding, env: Seq<(String, String)>) -> Seq<
    (Seq<char>, Seq<char>),
> {
    env.map_values(|p: (String, String)| (lower_key(mode, p.0@), p.1@))
}

/// The pairs of a snapshot with every key UPPERCASED per `mode` and
/// every value unchanged.
pub open spec fn upper_view(mode: Folding, env: Seq<(String, String)>) -> Seq<
    (Seq<char>, Seq<char>),
> {
    env.map_values(|p: (String, String)| (upper_key(mode, p.0@), p.1@))
}

/// A key wrapped for comparison that ignores case: it supports
/// equality against any string under its folding policy, and nothing
/// more than reading the text back.
#[derive(Debug)]
pub struct UncasedPartialEq {
    key: String,
    mode: Folding,
}

impl UncasedPartialEq {
    /// The wrapped key's characters, untransformed.
    pub closed spec fn key_view(&self) -> Seq<char> {
        self.key@
    }

    /// The folding policy the wrapper compares under.
    pub closed spec fn mode_view(&self) -> Folding {
        self.mode
    }

    /// Wrap a key for caseless comparison under `mode`.
    pub fn new(mode: Folding, key: String) -> (r: UncasedPartialEq)
        ensures
            r.key_view() == key@,
            r.mode_view() == mode,
    {
        UncasedPartialEq { key, mode }
    }

    /// Whether the wrapped key is caseless-equal to `other`.
    pub fn eq_str(&self, other: &str) -> (r: bool)
        ensures
            r == keys_equal(self.mode_view(), self.key_view(), other@),
    {
        keys_eq(self.mode, self.key.as_str(), other)
    }

    /// The wrapped key's text, unchanged.
    pub fn as_str(&self) -> (r: &str)
        ensures
            r@ == self.key_view(),
    {
        self.key.as_str()
    }
}

/// A lazy walk over a snapshot whose keys come wrapped for caseless
/// comparison; the text of each key is yielded unchanged.
#[derive(Debug)]
pub struct UncasedVars {
    vars: Vec<(String, String)>,
    mode: Folding,
    pos: usize,
}

impl UncasedVars {
    /// The pairs this walk has not yet yielded.
    pub closed spec fn remaining(&self) -> Seq<(Seq<char>, Seq<char>)> {
        if self.pos <= self.vars@.len() {
            uncased_view(self.vars@).subrange(self.pos as int, self.vars@.len() as int)
        } else {
            Seq::empty()
        }
    }

    /// The folding policy the walk wraps its keys with.
    pub closed spec fn mode_view(&self) -> Folding {
        self.mode
    }

    /// Yield the next pair: the key wrapped for caseless comparison,
    /// the value unchanged.
    pub fn next(&mut self) -> (r: Option<(UncasedPartialEq, String)>)
        ensures
            final(self).mode_view() == old(self).mode_view(),
            old(self).remaining().len() == 0 ==> r is None && final(self).remaining() == old(
                self,
            ).remaining(),
            old(self).remaining().len() > 0 ==> match r {
                Some(p) => p.0.key_view() == old(self).remaining()[0].0 && p.0.mode_view() == old(
                    self,
                ).mode_view() && p.1@ == old(self).remaining()[0].1 && final(self).remaining()
                    == old(self).remaining().drop_first(),
                None => false,
            },
    {
        if self.pos < self.vars.len() {
            let k = self.vars[self.pos].0.clone();
            let v = self.vars[self.pos].1.clone();
            let wrapped = UncasedPartialEq::new(self.mode, k);
            self.pos = self.pos + 1;
            proof {
                assert(old(self).remaining()[0] == uncased_view(self.vars@)[old(self).pos as int]);
                assert(self.remaining() =~= old(self).remaining().drop_first());
            }
            Some((wrapped, v))
        } else {
            None
        }
    }
}

/// A lazy walk over a snapshot whose keys are lowercased per its
/// folding policy; values are yielded unchanged.
#[derive(Debug)]
pub struct LowerVars {
    vars: Vec<(String, String)>,
    mode: Folding,
    pos: usize,
}

impl LowerVars {
    /// The transformed pairs this walk has not yet yielded.
    pub closed spec fn remaining(&self) -> Seq<(Seq<char>, Seq<char>)> {
        if self.pos <= self.vars@.len() {
            lower_view(self.mode, self.vars@).subrange(self.pos as int, self.vars@.len() as int)
        } else {
            Seq::empty()
        }
    }

    /// Yield the next pair: the key lowercased, the value unchanged.
    pub fn next(&mut self) -> (r: Option<(String, String)>)
        ensures
            old(self).remaining().len() == 0 ==> r is None && final(self).remaining() == old(
                self,
            ).remaining(),
            old(self).remaining().len() > 0 ==> match r {
                Some(p) => p.0@ == old(self).remaining()[0].0 && p.1@ == old(self).remaining()[0].1
                    && final(self).remaining() == old(self).remaining().drop_first(),
                None => false,
            },
    {
        if self.pos < self.vars.len() {
            let k = to_lower_key(self.mode, self.vars[self.pos].0.as_str());
            let v = self.vars[self.pos].1.clone();
            self.pos = self.pos + 1;
            proof {
                assert(old(self).remaining()[0] == lower_view(self.mode, self.vars@)[old(
                    self,
                ).pos as int]);
                assert(self.remaining() =~= old(self).remaining().drop_first());
            }
            Some((k, v))
        } else {
            None
        }
    }
}

/// A lazy walk over a snapshot whose keys are UPPERCASED per its
/// folding policy; values are yielded unchanged.
#[derive(Debug)]
pub struct UpperVars {
    vars: Vec<(String, String)>,
    mode: Folding,
    pos: usize,
}

impl UpperVars {
    /// The transformed pairs this walk has not yet yielded.
    pub closed spec fn remaining(&self) -> Seq<(Seq<char>, Seq<char>)> {
        if self.pos <= self.vars@.len() {
            upper_view(self.mode, self.vars@).subrange(self.pos as int, self.vars@.len() as int)
        } else {
            Seq::empty()
        }
    }

    /// Yield the next pair: the key UPPERCASED, the value unchanged.
    pub fn next(&mut self) -> (r: Option<(String, String)>)
        ensures
            old(self).remaining().len() == 0 ==> r is None && final(self).remaining() == old(
                self,
            ).remaining(),
            old(self).remaining().len() > 0 ==> match r {
                Some(p) => p.0@ == old(self).remaining()[0].0 && p.1@ == old(self).remaining()[0].1
                    && final(self).remaining() == old(self).remaining().drop_first(),
                None => false,
            },
    {
        if self.pos < self.vars.len() {
            let k = to_upper_key(self.mode, self.vars[self.pos].0.as_str());
            let v = self.vars[self.pos].1.clone();
            self.pos = self.pos + 1;
            proof {
                assert(old(self).remaining()[0] == upper_view(self.mode, self.vars@)[old(
                    self,
                ).pos as int]);
                assert(self.remaining() =~= old(self).remaining().drop_first());
            }
            Some((k, v))
        } else {
            None
        }
    }
}

/// Start a caseless walk over the snapshot: every pair will be
/// yielded in order, keys wrapped for comparison without case.
pub fn uncased_vars(mode: Folding, vars: Vec<(String, String)>) -> (r: UncasedVars)
    ensures
        r.remaining() == uncased_view(vars@),
        r.mode_view() == mode,
{
    let r = UncasedVars { vars, mode, pos: 0 };
    proof {
        assert(r.remaining() =~= uncased_view(r.vars@));
    }
    r
}

/// Start a lowercased walk over the snapshot: every pair will be
/// yielded in order, keys lowercased per `mode`.
pub fn lower_vars(mode: Folding, vars: Vec<(String, String)>) -> (r: LowerVars)
    ensures
        r.remaining() == lower_view(mode, vars@),
{
    let r = LowerVars { vars, mode, pos: 0 };
    proof {
        assert(r.remaining() =~= lower_view(mode, r.vars@));
    }
    r
}

/// Start an UPPERCASED walk over the snapshot: every pair will be
/// yielded in order, keys UPPERCASED per `mode`.
pub fn upper_vars(mode: Folding, vars: Vec<(String, String)>) -> (r: UpperVars)
    ensures
        r.remaining() == upper_view(mode, vars@),
{
    let r = UpperVars { vars, mode, pos: 0 };
    proof {
        assert(r.remaining() =~= upper_view(mode, r.vars@));
    }
    r
}

} // verus!
