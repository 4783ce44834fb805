//! The `vector_mapp::vec::VecMap` maps that a configuration holds. A `VecMap`
//! is a vector of key/value pairs: `insert` replaces the value of the first
//! pair with an equal key, or appends a new pair; iteration follows the
//! vector's order. The pairs of each map are named below and the calls that
//! the library makes are stated over those names.
use vstd::prelude::*;
use vector_mapp::vec::VecMap;
use crate::function::{FunctionConfig, Parameter};

verus! {

#[verifier::external_type_specification]
#[verifier::external_body]
#[verifier::reject_recursive_types(K)]
#[verifier::reject_recursive_types(V)]
pub struct ExVecMap<K, V>(VecMap<K, V>);

/// `VecMap::clone`, which the derived `Clone` of the configuration types
/// calls; nothing is stated of the copy.
pub assume_specification<K: Clone, V: Clone> [<VecMap<K, V> as Clone>::clone] (_0: &VecMap<K, V>) -> VecMap<K, V>;

/// The pairs, in order, of a map from function index to function configuration.
pub uninterp spec fn function_entries(m: VecMap<u32, FunctionConfig>) -> Seq<(u32, FunctionConfig)>;

/// The pairs, in order, of a map from parameter index to parameter configuration.
pub uninterp spec fn parameter_entries(m: VecMap<u32, Parameter>) -> Seq<(u32, Parameter)>;

/// The index of the first pair whose key is `k`, if any.
pub open spec fn first_key_index<V>(s: Seq<(u32, V)>, k: u32) -> Option<int>
    decreases s.len(),
{
    if s.len() == 0 {
        None
    } else if s[0].0 == k {
        Some(0)
    } else {
        match first_key_index(s.drop_first(), k) {
            Some(i) => Some(i + 1),
            None => None,
        }
    }
}

/// The pairs after `VecMap::insert(k, v)`.
pub open spec fn inserted<V>(s: Seq<(u32, V)>, k: u32, v: V) -> Seq<(u32, V)> {
    match first_key_index(s, k) {
        Some(i) => s.update(i, (k, v)),
        None => s.push((k, v)),
    }
}

/// The value of the first pair whose key is `k`.
pub open spec fn lookup<V>(s: Seq<(u32, V)>, k: u32) -> Option<V> {
    match first_key_index(s, k) {
        Some(i) => Some(s[i].1),
        None => None,
    }
}

/// The pairs of a map after inserting each of `f` in turn into `s`.
pub open spec fn appended<V>(s: Seq<(u32, V)>, f: Seq<(u32, V)>) -> Seq<(u32, V)>
    decreases f.len(),
{
    if f.len() == 0 {
        s
    } else {
        inserted(appended(s, f.drop_last()), f.last().0, f.last().1)
    }
}

pub proof fn lemma_first_key_index_none<V>(s: Seq<(u32, V)>, k: u32)
    requires
        forall|i: int| 0 <= i < s.len() ==> s[i].0 != k,
    ensures
        first_key_index(s, k) is None,
    decreases s.len(),
{
    if s.len() > 0 {
        assert forall|i: int| 0 <= i < s.drop_first().len() implies s.drop_first()[i].0 != k by {
            assert(s.drop_first()[i] == s[i + 1]);
        }
        lemma_first_key_index_none(s.drop_first(), k);
    }
}

/// Inserting the pairs of a map with distinct keys into an empty map gives
/// the same pairs back.
pub proof fn lemma_appended_unique<V>(s: Seq<(u32, V)>)
    requires
        unique_keys(s),
    ensures
        appended(Seq::<(u32, V)>::empty(), s) == s,
    decreases s.len(),
{
    if s.len() == 0 {
        assert(s =~= Seq::<(u32, V)>::empty());
    } else {
        let init = s.drop_last();
        assert forall|i: int, j: int| 0 <= i < j < init.len() implies init[i].0 != init[j].0 by {
            assert(init[i] == s[i] && init[j] == s[j]);
        }
        lemma_appended_unique(init);
        assert forall|i: int| 0 <= i < init.len() implies init[i].0 != s.last().0 by {
            assert(init[i] == s[i]);
        }
        lemma_first_key_index_none(init, s.last().0);
        assert(init.push(s.last()) =~= s);
    }
}

/// The first index of a key depends only on the keys.
pub proof fn lemma_first_key_index_map<V, W>(s: Seq<(u32, V)>, t: Seq<(u32, W)>, k: u32)
    requires
        s.len() == t.len(),
        forall|i: int| 0 <= i < s.len() ==> s[i].0 == #[trigger] t[i].0,
    ensures
        first_key_index(s, k) == first_key_index(t, k),
    decreases s.len(),
{
    if s.len() > 0 {
        assert forall|i: int| 0 <= i < s.drop_first().len() implies s.drop_first()[i].0 == #[trigger] t.drop_first()[i].0 by {
            assert(s.drop_first()[i] == s[i + 1] && t.drop_first()[i] == t[i + 1]);
        }
        lemma_first_key_index_map(s.drop_first(), t.drop_first(), k);
    }
}

pub proof fn lemma_first_key_index_bounds<V>(s: Seq<(u32, V)>, k: u32)
    ensures
        first_key_index(s, k) matches Some(i) ==> 0 <= i < s.len() && s[i].0 == k,
    decreases s.len(),
{
    if s.len() > 0 {
        lemma_first_key_index_bounds(s.drop_first(), k);
    }
}

/// No key occurs in two pairs.
pub open spec fn unique_keys<V>(s: Seq<(u32, V)>) -> bool {
    forall|i: int, j: int| 0 <= i < j < s.len() ==> s[i].0 != s[j].0
}

/// Calls `VecMap::new`, which holds no pairs.
#[verifier::external_body]
pub(crate) fn new_function_map() -> (r: VecMap<u32, FunctionConfig>)
    ensures
        function_entries(r) == Seq::<(u32, FunctionConfig)>::empty(),
{
    VecMap::new()
}

/// Calls `VecMap::new`, which holds no pairs.
#[verifier::external_body]
pub(crate) fn new_parameter_map() -> (r: VecMap<u32, Parameter>)
    ensures
        parameter_entries(r) == Seq::<(u32, Parameter)>::empty(),
{
    VecMap::new()
}

/// Calls `VecMap::insert`: the first pair with key `k` gets the value `v` and
/// its old value is returned; without such a pair, `(k, v)` is appended.
#[verifier::external_body]
pub(crate) fn insert_function(m: &mut VecMap<u32, FunctionConfig>, k: u32, v: FunctionConfig) -> (r: Option<FunctionConfig>)
    ensures
        function_entries(*final(m)) == inserted(function_entries(*old(m)), k, v),
        r == lookup(function_entries(*old(m)), k),
{
    m.insert(k, v)
}

/// Calls `VecMap::insert`, as `insert_function` states it.
#[verifier::external_body]
pub(crate) fn insert_parameter(m: &mut VecMap<u32, Parameter>, k: u32, v: Parameter) -> (r: Option<Parameter>)
    ensures
        parameter_entries(*final(m)) == inserted(parameter_entries(*old(m)), k, v),
        r == lookup(parameter_entries(*old(m)), k),
{
    m.insert(k, v)
}

/// Calls `VecMap::clone` and `VecMap::into_vec`: the pairs of the map, in
/// order. The configuration types clone field by field, so the copies are
/// equal to the values they copy.
#[verifier::external_body]
pub(crate) fn function_pairs(m: &VecMap<u32, FunctionConfig>) -> (r: Vec<(u32, FunctionConfig)>)
    ensures
        r@ == function_entries(*m),
{
    m.clone().into_vec()
}

/// Calls `VecMap::clone` and `VecMap::into_vec`, as `function_pairs` states it.
#[verifier::external_body]
pub(crate) fn parameter_pairs(m: &VecMap<u32, Parameter>) -> (r: Vec<(u32, Parameter)>)
    ensures
        r@ == parameter_entries(*m),
{
    m.clone().into_vec()
}

/// Calls `VecMap::get`: the value of the first pair whose key is `k`.
#[verifier::external_body]
pub(crate) fn get_function(m: &VecMap<u32, FunctionConfig>, k: u32) -> (r: Option<&FunctionConfig>)
    ensures
        match r {
            Some(v) => lookup(function_entries(*m), k) == Some(*v),
            None => lookup(function_entries(*m), k) is None,
        },
{
    m.get(&k)
}

/// Calls `VecMap::get`: the value of the first pair whose key is `k`.
#[verifier::external_body]
pub(crate) fn get_parameter(m: &VecMap<u32, Parameter>, k: u32) -> (r: Option<&Parameter>)
    ensures
        match r {
            Some(v) => lookup(parameter_entries(*m), k) == Some(*v),
            None => lookup(parameter_entries(*m), k) is None,
        },
{
    m.get(&k)
}

} // verus!
