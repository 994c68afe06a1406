//! The explicit environment threaded through resolution. Variable bindings
//! are an ordered list, later bindings shadowing earlier ones, and `$VAR` /
//! `${VAR}` references are expanded against exactly these bindings.

use vstd::prelude::*;
use crate::text::str_eq;

verus! {

/// The bindings of `pairs` as a map: a later pair shadows an earlier one with
/// the same name.
pub open spec fn map_of_pairs(pairs: Seq<(String, String)>) -> Map<Seq<char>, Seq<char>>
    decreases pairs.len(),
{
    if pairs.len() == 0 {
        Map::empty()
    } else {
        map_of_pairs(pairs.drop_last()).insert(pairs.last().0@, pairs.last().1@)
    }
}

/// An explicit, ordered record of environment bindings. Resolution reads and
/// extends this record instead of the ambient process environment, so the
/// "variables set earlier are visible to later fields" contract holds without
/// global mutable state.
#[derive(Debug)]
pub struct EnvContext {
    pub pairs: Vec<(String, String)>,
}

impl EnvContext {
    /// The bindings as a map from name to value.
    pub open spec fn as_map(&self) -> Map<Seq<char>, Seq<char>> {
        map_of_pairs(self.pairs@)
    }

    /// An empty context.
    pub fn new() -> (r: EnvContext)
        ensures
            r.as_map() == Map::<Seq<char>, Seq<char>>::empty(),
    {
        EnvContext { pairs: Vec::new() }
    }

    /// Binds `name` to `value`, shadowing any earlier binding.
    pub fn set(&mut self, name: String, value: String)
        ensures
            final(self).as_map() == old(self).as_map().insert(name@, value@),
    {
        proof {
            let ghost after = self.pairs@.push((name, value));
            assert(after.drop_last() =~= self.pairs@);
        }
        self.pairs.push((name, value));
    }

    /// The value bound to `name`, when one is.
    pub fn get(&self, name: &str) -> (r: Option<&String>)
        ensures
            match r {
                Option::Some(v) => self.as_map().contains_key(name@) && v@ == self.as_map()[name@],
                Option::None => !self.as_map().contains_key(name@),
            },
    {
        let mut i: usize = self.pairs.len();
        while i > 0
            invariant
                i <= self.pairs@.len(),
                forall|j: int| i <= j < self.pairs@.len() ==> self.pairs@[j].0@ != name@,
            decreases i,
        {
            i -= 1;
            if str_eq(self.pairs[i].0.as_str(), name) {
                proof {
                    lemma_map_of_pairs_cutoff(self.pairs@, i + 1, name@);
                    let prefix = self.pairs@.subrange(0, i + 1);
                    assert(prefix.last() == self.pairs@[i as int]);
                }
                return Option::Some(&self.pairs[i].1);
            }
        }
        proof {
            lemma_map_of_pairs_cutoff(self.pairs@, 0, name@);
        }
        Option::None
    }
}

/// When no pair at or beyond `i` binds `key`, the bindings at `key` are those
/// of the first `i` pairs.
proof fn lemma_map_of_pairs_cutoff(pairs: Seq<(String, String)>, i: int, key: Seq<char>)
    requires
        0 <= i <= pairs.len(),
        forall|j: int| i <= j < pairs.len() ==> pairs[j].0@ != key,
    ensures
        map_of_pairs(pairs).contains_key(key) == map_of_pairs(pairs.subrange(0, i)).contains_key(
            key,
        ),
        map_of_pairs(pairs).contains_key(key) ==> map_of_pairs(pairs)[key] == map_of_pairs(
            pairs.subrange(0, i),
        )[key],
    decreases pairs.len() - i,
{
    if i == pairs.len() {
        assert(pairs.subrange(0, i) =~= pairs);
    } else {
        assert(pairs.last().0@ != key || pairs.len() - 1 < i);
        if i < pairs.len() {
            assert(pairs.drop_last() =~= pairs.subrange(0, pairs.len() - 1));
            lemma_map_of_pairs_cutoff(pairs.subrange(0, pairs.len() - 1), i, key);
            assert(pairs.subrange(0, pairs.len() - 1).subrange(0, i) =~= pairs.subrange(0, i));
        }
    }
}

/// The expansion of `s` against the bindings `env`: `None` when `s`
/// references a variable that `env` does not bind.
pub uninterp spec fn expand_env_of(s: Seq<char>, env: Map<Seq<char>, Seq<char>>) -> Option<
    Seq<char>,
>;

/// Relies on `shellexpand::env_with_context`: every `$VAR` / `${VAR}`
/// reference in `s` is replaced using the supplied lookup alone, so the
/// result is a function of `s` and the bindings; the lookup reports an
/// unbound variable as an error, which makes the whole expansion fail, and a
/// string without `$` is returned unchanged.
#[verifier::external_body]
pub(crate) fn expand_env(s: &str, ctx: &EnvContext) -> (r: Option<String>)
    ensures
        (match r {
            Option::Some(out) => expand_env_of(s@, ctx.as_map()) == Option::Some(out@),
            Option::None => expand_env_of(s@, ctx.as_map()) is None,
        }),
        (!s@.contains('$') ==> r is Some && r->Some_0@ == s@),
{
    let lookup = |name: &str| -> Result<Option<String>, ()> {
        match ctx.get(name) {
            Some(v) => Ok(Some(v.clone())),
            None => Err(()),
        }
    };
    match shellexpand::env_with_context(s, lookup) {
        Ok(expanded) => Some(expanded.into_owned()),
        Err(_) => None,
    }
}

} // verus!
