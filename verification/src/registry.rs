//! The wrapper registry: an insertion-ordered mapping from wrapper kind
//! to wrapper instance, backed by an `indexmap::IndexMap`.
//!
//! The map itself is outside code; its contents are named by
//! [`map_entries`], the sequence of key-value pairs in insertion order,
//! and the few methods the registry calls are trusted to behave as the
//! map's documentation says over that name. Everything above that — the
//! uniqueness of kinds, the collision behaviour of registration, the
//! execution order of hooks — is verified.

use vstd::prelude::*;
use indexmap::IndexMap;
use std::collections::hash_map::RandomState;
use crate::wrapper::{Wrapper, WrapperKind};

verus! {

/// The entries of an `IndexMap` used as a wrapper registry, as a
/// sequence of key-value pairs in insertion order.
pub uninterp spec fn map_entries(m: IndexMap<WrapperKind, Wrapper, RandomState>) -> Seq<(WrapperKind, Wrapper)>;

#[verifier::external_type_specification]
#[verifier::external_body]
#[verifier::reject_recursive_types(K)]
#[verifier::reject_recursive_types(V)]
#[verifier::reject_recursive_types(S)]
pub struct ExIndexMap<K, V, S>(IndexMap<K, V, S>);

/// No two entries share a key.
pub open spec fn unique_keys(s: Seq<(WrapperKind, Wrapper)>) -> bool {
    forall|i: int, j: int| 0 <= i < j < s.len() ==> s[i].0 != s[j].0
}

/// Relies on indexmap's `IndexMap::new`: creates an empty map.
#[verifier::external_body]
fn map_new() -> (r: IndexMap<WrapperKind, Wrapper, RandomState>)
    ensures
        map_entries(r) == Seq::<(WrapperKind, Wrapper)>::empty(),
{
    IndexMap::new()
}

/// Relies on indexmap's `IndexMap::len`: the number of entries.
#[verifier::external_body]
fn map_len(m: &IndexMap<WrapperKind, Wrapper, RandomState>) -> (r: usize)
    ensures
        r == map_entries(*m).len(),
{
    m.len()
}

/// Relies on indexmap's `IndexMap::contains_key`: whether an entry with
/// an equal key exists.
#[verifier::external_body]
fn map_contains_key(m: &IndexMap<WrapperKind, Wrapper, RandomState>, k: WrapperKind) -> (r: bool)
    ensures
        r == (exists|i: int| 0 <= i < map_entries(*m).len() && map_entries(*m)[i].0 == k),
{
    m.contains_key(&k)
}

/// Relies on indexmap's `IndexMap::get`: the value stored for an equal
/// key, if one exists.
#[verifier::external_body]
fn map_get(m: &IndexMap<WrapperKind, Wrapper, RandomState>, k: WrapperKind) -> (r: Option<&Wrapper>)
    ensures
        match r {
            Some(v) => exists|i: int| 0 <= i < map_entries(*m).len()
                && map_entries(*m)[i] == (k, *v),
            None => forall|i: int| 0 <= i < map_entries(*m).len()
                ==> map_entries(*m)[i].0 != k,
        },
{
    m.get(&k)
}

/// Relies on indexmap's `IndexMap::get_index`: the entry at a position
/// in insertion order, if the position is within bounds.
#[verifier::external_body]
fn map_get_index(m: &IndexMap<WrapperKind, Wrapper, RandomState>, i: usize) -> (r: Option<(WrapperKind, Wrapper)>)
    ensures
        i < map_entries(*m).len() ==> r == Some(map_entries(*m)[i as int]),
        i >= map_entries(*m).len() ==> r is None,
{
    m.get_index(i).map(|e: (&WrapperKind, &Wrapper)| (*e.0, *e.1))
}

/// Relies on indexmap's `IndexMap::insert`: if an equal key exists its
/// value is replaced in place, the older value returned; otherwise the
/// pair is appended, last in order.
#[verifier::external_body]
fn map_insert(m: &mut IndexMap<WrapperKind, Wrapper, RandomState>, k: WrapperKind, v: Wrapper) -> (r: Option<Wrapper>)
    requires
        unique_keys(map_entries(*old(m))),
    ensures
        unique_keys(map_entries(*final(m))),
        (r is None) == (forall|i: int| 0 <= i < map_entries(*old(m)).len()
            ==> map_entries(*old(m))[i].0 != k),
        r is None ==> map_entries(*final(m)) == map_entries(*old(m)).push((k, v)),
        forall|i: int| 0 <= i < map_entries(*old(m)).len() && map_entries(*old(m))[i].0 == k
            ==> map_entries(*final(m)) == map_entries(*old(m)).update(i, (k, v))
                && r == Some(map_entries(*old(m))[i].1),
{
    m.insert(k, v)
}

/// An insertion-ordered registry of wrapper instances, at most one per
/// kind. Registration order is the execution order of the spawn hooks.
#[derive(Debug)]
pub struct Registry {
    map: IndexMap<WrapperKind, Wrapper, RandomState>,
}

impl Registry {
    /// The entries, in insertion order.
    pub closed spec fn entries(&self) -> Seq<(WrapperKind, Wrapper)> {
        map_entries(self.map)
    }

    /// The registered wrapper instances, in insertion order.
    pub open spec fn wrappers(&self) -> Seq<Wrapper> {
        self.entries().map_values(|e: (WrapperKind, Wrapper)| e.1)
    }

    /// Well-formed: kinds are unique, and every entry is stored under
    /// the kind of its instance — which is what makes kind-keyed lookup
    /// sound.
    pub open spec fn wf(&self) -> bool {
        &&& unique_keys(self.entries())
        &&& forall|i: int| 0 <= i < self.entries().len()
            ==> #[trigger] self.entries()[i].0 == self.entries()[i].1.kind_spec()
    }

    /// Whether some registered instance has this kind.
    pub open spec fn has_kind(&self, kind: WrapperKind) -> bool {
        exists|i: int| 0 <= i < self.wrappers().len()
            && #[trigger] self.wrappers()[i].kind_spec() == kind
    }

    /// In a well-formed registry no two instances share a kind.
    pub proof fn lemma_wf_unique_kinds(&self)
        requires
            self.wf(),
        ensures
            crate::wrapper::unique_kinds(self.wrappers()),
    {
        assert forall|i: int, j: int| 0 <= i < j < self.wrappers().len()
            implies self.wrappers()[i].kind_spec() != self.wrappers()[j].kind_spec() by {
            assert(self.entries()[i].0 == self.entries()[i].1.kind_spec());
            assert(self.entries()[j].0 == self.entries()[j].1.kind_spec());
        }
    }

    /// An empty registry.
    pub fn new() -> (r: Registry)
        ensures
            r.wf(),
            r.entries() == Seq::<(WrapperKind, Wrapper)>::empty(),
    {
        Registry { map: map_new() }
    }

    /// The number of registered wrappers.
    pub fn len(&self) -> (r: usize)
        ensures
            r == self.entries().len(),
    {
        map_len(&self.map)
    }

    /// Whether a wrapper of this kind is registered.
    pub fn contains(&self, kind: WrapperKind) -> (r: bool)
        requires
            self.wf(),
        ensures
            r == self.has_kind(kind),
    {
        let r = map_contains_key(&self.map, kind);
        proof {
            if r {
                let i = choose|i: int| 0 <= i < self.entries().len() && self.entries()[i].0 == kind;
                assert(self.wrappers()[i].kind_spec() == kind);
            }
            if self.has_kind(kind) {
                let i = choose|i: int| 0 <= i < self.wrappers().len()
                    && #[trigger] self.wrappers()[i].kind_spec() == kind;
                assert(self.entries()[i].0 == kind);
            }
        }
        r
    }

    /// The registered instance of this kind, if any. Lookup is sound:
    /// the returned instance is stored under its own kind.
    pub fn get(&self, kind: WrapperKind) -> (r: Option<&Wrapper>)
        requires
            self.wf(),
        ensures
            match r {
                Some(w) => w.kind_spec() == kind
                    && exists|i: int| 0 <= i < self.wrappers().len()
                        && #[trigger] self.wrappers()[i] == *w,
                None => !self.has_kind(kind),
            },
    {
        let r = map_get(&self.map, kind);
        proof {
            match r {
                Some(w) => {
                    let i = choose|i: int| 0 <= i < self.entries().len()
                        && self.entries()[i] == (kind, *w);
                    assert(self.entries()[i].0 == self.entries()[i].1.kind_spec());
                    assert(self.wrappers()[i] == *w);
                }
                None => {
                    if self.has_kind(kind) {
                        let i = choose|i: int| 0 <= i < self.wrappers().len()
                            && #[trigger] self.wrappers()[i].kind_spec() == kind;
                        assert(self.entries()[i].0 == kind);
                    }
                }
            }
        }
        r
    }

    /// The wrapper at a position in registration order.
    pub fn get_index(&self, i: usize) -> (r: Option<Wrapper>)
        ensures
            i < self.wrappers().len() ==> r == Some(self.wrappers()[i as int]),
            i >= self.wrappers().len() ==> r is None,
    {
        match map_get_index(&self.map, i) {
            Some(e) => Some(e.1),
            None => None,
        }
    }

    /// Register a wrapper instance. If its kind is new, it is appended,
    /// last in order. If an instance of the same kind already exists,
    /// that instance's `extend` hook is given the newcomer — which it
    /// absorbs or, by default, discards — and the registry is unchanged
    /// in length and order.
    pub fn register(&mut self, w: Wrapper)
        requires
            old(self).wf(),
        ensures
            final(self).wf(),
            old(self).has_kind(w.kind_spec()) ==> final(self).entries() == old(self).entries(),
            !old(self).has_kind(w.kind_spec()) ==> final(self).entries()
                == old(self).entries().push((w.kind_spec(), w)),
    {
        let kind = w.kind();
        let extant: Option<&Wrapper> = self.get(kind);
        match extant {
            Some(cur) => {
                let mut merged: Wrapper = *cur;
                merged.extend(w);
                let ghost pre = self.entries();
                let _old = map_insert(&mut self.map, kind, merged);
                proof {
                    let i = choose|i: int| 0 <= i < pre.len() && pre[i] == (kind, merged);
                    assert(pre[i].0 == kind);
                    assert(self.entries() == pre.update(i, (kind, merged)));
                    assert(self.entries() =~= pre);
                }
            }
            None => {
                proof {
                    assert forall|i: int| 0 <= i < old(self).entries().len()
                        implies #[trigger] old(self).entries()[i].0 != kind by {
                        if old(self).entries()[i].0 == kind {
                            assert(old(self).entries()[i].0 == old(self).entries()[i].1.kind_spec());
                            assert(old(self).wrappers()[i].kind_spec() == kind);
                        }
                    }
                }
                let _old = map_insert(&mut self.map, kind, w);
                proof {
                    assert(final(self).entries() == old(self).entries().push((kind, w)));
                }
            }
        }
    }
}

} // verus!
