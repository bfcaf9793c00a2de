//! The insertion-ordered maps of the registrar (`indexmap::IndexMap`), behind
//! wrappers whose contracts say what each call does to the entries.
use std::rc::Rc;
use indexmap::IndexMap;
use vstd::prelude::*;
use crate::cornucopia_type::{CornucopiaType, TypeModel};

verus! {

#[verifier::external_type_specification]
#[verifier::external_body]
#[verifier::reject_recursive_types(K)]
#[verifier::reject_recursive_types(V)]
#[verifier::reject_recursive_types(S)]
pub struct ExIndexMap<K, V, S>(IndexMap<K, V, S>);

/// Registered types, keyed by `(schema, name)`, in the order they were registered.
pub type TypeMap = IndexMap<(String, String), Rc<CornucopiaType>>;

/// Domain row overrides: domain name to Rust type, in the order they were met.
pub type OverrideMap = IndexMap<String, String>;

/// A key of [`TypeMap`]: schema and name.
pub type TypeKey = (Seq<char>, Seq<char>);

/// The entries of a [`TypeMap`], in order.
pub uninterp spec fn type_entries(m: IndexMap<(String, String), Rc<CornucopiaType>>) -> Seq<
    (TypeKey, TypeModel),
>;

/// The entries of an [`OverrideMap`], in order.
pub uninterp spec fn override_entries(m: IndexMap<String, String>) -> Seq<(Seq<char>, Seq<char>)>;

/// The index of the first entry of `s` with key `k`.
pub open spec fn index_of_key<K, V>(s: Seq<(K, V)>, k: K) -> Option<int>
    decreases s.len(),
{
    if s.len() == 0 {
        None
    } else {
        match index_of_key(s.subrange(0, s.len() - 1), k) {
            Some(i) => Some(i),
            None => if s[s.len() - 1].0 == k {
                Some(s.len() - 1)
            } else {
                None
            },
        }
    }
}

pub proof fn lemma_index_of_key<K, V>(s: Seq<(K, V)>, k: K)
    ensures
        index_of_key(s, k) matches Some(i) ==> 0 <= i < s.len() && s[i].0 == k && forall|j: int|
            0 <= j < i ==> s[j].0 != k,
        index_of_key(s, k) is None ==> forall|j: int| 0 <= j < s.len() ==> s[j].0 != k,
    decreases s.len(),
{
    if s.len() > 0 {
        let pre = s.subrange(0, s.len() - 1);
        lemma_index_of_key(pre, k);
        assert forall|j: int| 0 <= j < s.len() - 1 implies s[j] == pre[j] by {}
    }
}

pub proof fn lemma_index_of_key_push<K, V>(s: Seq<(K, V)>, e: (K, V), k: K)
    ensures
        index_of_key(s.push(e), k) == match index_of_key(s, k) {
            Some(i) => Some(i),
            None => if e.0 == k {
                Some(s.len() as int)
            } else {
                None
            },
        },
{
    assert(s.push(e).subrange(0, s.len() as int) =~= s);
}

/// Calls `IndexMap::new`: a map with no entries.
#[verifier::external_body]
pub(crate) fn type_map_new() -> (m: TypeMap)
    ensures
        type_entries(m) == Seq::<(TypeKey, TypeModel)>::empty(),
{
    IndexMap::new()
}

/// Calls `IndexMap::get_index_of`: the index of the entry with the given key. The
/// keys of an `IndexMap` are unique, so this is the first entry with that key.
#[verifier::external_body]
pub(crate) fn type_map_index_of(m: &TypeMap, key: &(String, String)) -> (r: Option<usize>)
    ensures
        match r {
            Some(i) => index_of_key(type_entries(*m), (key.0@, key.1@)) == Some(i as int),
            None => index_of_key(type_entries(*m), (key.0@, key.1@)) is None,
        },
{
    m.get_index_of(key)
}

/// Calls `<IndexMap as Index<usize>>::index`: the value of the `i`-th entry (it panics
/// beyond the length, which `requires` rules out).
#[verifier::external_body]
pub(crate) fn type_map_value_at(m: &TypeMap, i: usize) -> (r: &Rc<CornucopiaType>)
    requires
        i < type_entries(*m).len(),
    ensures
        r@ == type_entries(*m)[i as int].1,
{
    &m[i]
}

/// Calls `IndexMap::insert_full`: a new key goes last; an existing key keeps its
/// place and gets the new value. Returns the entry's index.
#[verifier::external_body]
pub(crate) fn type_map_insert_full(m: &mut TypeMap, key: (String, String), value: Rc<CornucopiaType>) -> (r:
    usize)
    ensures
        match index_of_key(type_entries(*old(m)), (key.0@, key.1@)) {
            Some(i) => r == i && type_entries(*final(m)) == type_entries(*old(m)).update(
                i,
                ((key.0@, key.1@), value@),
            ),
            None => r == type_entries(*old(m)).len() && type_entries(*final(m)) == type_entries(
                *old(m),
            ).push(((key.0@, key.1@), value@)),
        },
{
    m.insert_full(key, value).0
}

/// Calls `IndexMap::len`.
#[verifier::external_body]
pub(crate) fn type_map_len(m: &TypeMap) -> (r: usize)
    ensures
        r == type_entries(*m).len(),
{
    m.len()
}

/// Calls `IndexMap::new`: a map with no entries.
#[verifier::external_body]
pub(crate) fn override_map_new() -> (m: OverrideMap)
    ensures
        override_entries(m) == Seq::<(Seq<char>, Seq<char>)>::empty(),
{
    IndexMap::new()
}

/// Calls `IndexMap::get_index_of`: the index of the entry with the given key (the
/// only one, keys being unique).
#[verifier::external_body]
pub(crate) fn override_map_index_of(m: &OverrideMap, key: &String) -> (r: Option<usize>)
    ensures
        match r {
            Some(i) => index_of_key(override_entries(*m), key@) == Some(i as int),
            None => index_of_key(override_entries(*m), key@) is None,
        },
{
    m.get_index_of(key)
}

/// Calls `IndexMap::insert_full`: a new key goes last; an existing key keeps its
/// place and gets the new value. Returns the entry's index.
#[verifier::external_body]
pub(crate) fn override_map_insert_full(m: &mut OverrideMap, key: String, value: String) -> (r: usize)
    ensures
        match index_of_key(override_entries(*old(m)), key@) {
            Some(i) => r == i && override_entries(*final(m)) == override_entries(*old(m)).update(
                i,
                (key@, value@),
            ),
            None => r == override_entries(*old(m)).len() && override_entries(*final(m))
                == override_entries(*old(m)).push((key@, value@)),
        },
{
    m.insert_full(key, value).0
}

} // verus!
