use vstd::prelude::*;

use crate::keymap::{position_of, string_views, KeyMap};
use super::raw_data::{RawData, StorageError};

verus! {

/// A namespace held in memory: a map from keys to stored values.
pub struct InMemNamespace {
    data: KeyMap<RawData>,
}

/// An in-memory storage: a map from namespace names to namespaces.
pub struct InMemStorage {
    namespaces: KeyMap<InMemNamespace>,
}

/// The bytes of each stored value.
pub open spec fn bytes_of(m: Map<Seq<char>, RawData>) -> Map<Seq<char>, Seq<u8>> {
    m.map_values(|r: RawData| r@)
}

/// The value stored under `key` in the contents `m`, if any.
pub open spec fn stored_value(m: Map<Seq<char>, Seq<u8>>, key: Seq<char>) -> Option<Seq<u8>> {
    if m.contains_key(key) {
        Some(m[key])
    } else {
        None
    }
}

/// The contents `m` after putting `value` under `key`.
pub open spec fn after_put(m: Map<Seq<char>, Seq<u8>>, key: Seq<char>, value: Seq<u8>) -> Map<
    Seq<char>,
    Seq<u8>,
> {
    m.insert(key, value)
}

/// The contents `m` after deleting `key`.
pub open spec fn after_delete(m: Map<Seq<char>, Seq<u8>>, key: Seq<char>) -> Map<Seq<char>, Seq<u8>> {
    m.remove(key)
}

impl InMemNamespace {
    /// Well-formedness of the underlying map.
    pub closed spec fn wf(&self) -> bool {
        self.data.wf()
    }

    /// The contents: each key with the bytes stored under it.
    pub closed spec fn view(&self) -> Map<Seq<char>, Seq<u8>> {
        bytes_of(self.data@)
    }

    /// The keys, in the order in which they were first put.
    pub closed spec fn key_order(&self) -> Seq<Seq<char>> {
        self.data.key_order()
    }

    /// The key order holds each key of the contents once.
    pub proof fn lemma_key_order(&self)
        requires
            self.wf(),
        ensures
            self.key_order().no_duplicates(),
            self.key_order().to_set() == self@.dom(),
            self@.dom().finite(),
            self@.dom().len() == self.key_order().len(),
    {
        self.data.lemma_wf();
        assert(self@.dom() =~= self.data@.dom());
    }

    /// Creates an empty namespace.
    fn new() -> (r: Self)
        ensures
            r.wf(),
            r@ == Map::<Seq<char>, Seq<u8>>::empty(),
            r.key_order() == Seq::<Seq<char>>::empty(),
    {
        let r = InMemNamespace { data: KeyMap::new() };
        assert(r@ =~= Map::<Seq<char>, Seq<u8>>::empty());
        r
    }

    /// Whether a value is stored under `key`.
    pub fn exist(&self, key: &str) -> (r: bool)
        requires
            self.wf(),
        ensures
            r == self@.contains_key(key@),
    {
        self.data.contains_key(key)
    }

    /// A copy of the value stored under `key`, if any. Never fails.
    pub fn get(&self, key: &str) -> (r: Result<Option<RawData>, StorageError>)
        requires
            self.wf(),
        ensures
            match r {
                Ok(Some(d)) => stored_value(self@, key@) == Some(d@),
                Ok(None) => stored_value(self@, key@) is None,
                Err(_) => false,
            },
    {
        match self.data.get(key) {
            Some(d) => Ok(Some(d.duplicate())),
            None => Ok(None),
        }
    }

    /// Stores `value` under `key`, replacing any earlier value. Never fails.
    pub fn put(&mut self, key: &str, value: RawData) -> (r: Result<(), StorageError>)
        requires
            old(self).wf(),
        ensures
            r is Ok,
            final(self).wf(),
            final(self)@ == after_put(old(self)@, key@, value@),
            final(self).key_order() == if old(self)@.contains_key(key@) {
                old(self).key_order()
            } else {
                old(self).key_order().push(key@)
            },
    {
        let ghost v = value@;
        self.data.insert(key.to_owned(), value);
        assert(self@ =~= old(self)@.insert(key@, v));
        Ok(())
    }

    /// Removes the value stored under `key`, if any. Never fails.
    pub fn delete(&mut self, key: &str) -> (r: Result<(), StorageError>)
        requires
            old(self).wf(),
        ensures
            r is Ok,
            final(self).wf(),
            final(self)@ == after_delete(old(self)@, key@),
            final(self).key_order() == if old(self)@.contains_key(key@) {
                old(self).key_order().remove(position_of(old(self).key_order(), key@))
            } else {
                old(self).key_order()
            },
    {
        let _ = self.data.remove(key);
        assert(self@ =~= old(self)@.remove(key@));
        Ok(())
    }

    /// The keys, in the order in which they were first put. Never fails.
    pub fn keys(&self) -> (r: Result<Vec<String>, StorageError>)
        requires
            self.wf(),
        ensures
            match r {
                Ok(ks) => string_views(ks@) == self.key_order(),
                Err(_) => false,
            },
    {
        Ok(self.data.keys())
    }
}

/// The contents after creating the namespace `n`: unchanged when it exists,
/// else with `n` added, empty.
pub open spec fn created(
    s: Map<Seq<char>, Map<Seq<char>, Seq<u8>>>,
    n: Seq<char>,
) -> Map<Seq<char>, Map<Seq<char>, Seq<u8>>> {
    if s.contains_key(n) {
        s
    } else {
        s.insert(n, Map::empty())
    }
}

/// Whether every namespace of `m` is well-formed.
pub open spec fn all_wf(m: Map<Seq<char>, InMemNamespace>) -> bool {
    forall|n: Seq<char>| #[trigger] m.contains_key(n) ==> m[n].wf()
}

/// Replacing one namespace changes the contents of that namespace only.
proof fn lemma_replace_namespace(m: Map<Seq<char>, InMemNamespace>, k: Seq<char>, v: InMemNamespace)
    ensures
        m.insert(k, v).map_values(|n: InMemNamespace| n@) == m.map_values(
            |n: InMemNamespace| n@,
        ).insert(k, v@),
        all_wf(m) && v.wf() ==> all_wf(m.insert(k, v)),
{
    assert(m.insert(k, v).map_values(|n: InMemNamespace| n@) =~= m.map_values(
        |n: InMemNamespace| n@,
    ).insert(k, v@));
}

impl InMemStorage {
    /// Well-formedness of the map of namespaces and of each namespace.
    pub closed spec fn wf(&self) -> bool {
        &&& self.namespaces.wf()
        &&& all_wf(self.namespaces@)
    }

    /// The contents: each namespace name with the contents of that namespace.
    pub closed spec fn view(&self) -> Map<Seq<char>, Map<Seq<char>, Seq<u8>>> {
        self.namespaces@.map_values(|n: InMemNamespace| n@)
    }

    /// The namespace names, in the order in which they were created.
    pub closed spec fn namespace_order(&self) -> Seq<Seq<char>> {
        self.namespaces.key_order()
    }

    /// The order of the keys of the namespace `n`, as its `key_order` gives it.
    pub closed spec fn key_order_of(&self, n: Seq<char>) -> Seq<Seq<char>> {
        self.namespaces@[n].key_order()
    }

    /// The namespace order holds each namespace name once.
    pub proof fn lemma_namespace_order(&self)
        requires
            self.wf(),
        ensures
            self.namespace_order().no_duplicates(),
            self.namespace_order().to_set() == self@.dom(),
            self@.dom().finite(),
            self@.dom().len() == self.namespace_order().len(),
    {
        self.namespaces.lemma_wf();
        assert(self@.dom() =~= self.namespaces@.dom());
    }

    /// Creates a storage without namespaces.
    pub fn new() -> (r: Self)
        ensures
            r.wf(),
            r@ == Map::<Seq<char>, Map<Seq<char>, Seq<u8>>>::empty(),
            r.namespace_order() == Seq::<Seq<char>>::empty(),
    {
        let r = InMemStorage { namespaces: KeyMap::new() };
        assert(r@ =~= Map::<Seq<char>, Map<Seq<char>, Seq<u8>>>::empty());
        r
    }

    /// Whether the namespace exists.
    pub fn exist(&self, namespace: &str) -> (r: bool)
        requires
            self.wf(),
        ensures
            r == self@.contains_key(namespace@),
    {
        self.namespaces.contains_key(namespace)
    }

    /// Creates the namespace, empty, unless it exists; returns its name. Never fails.
    pub fn create(&mut self, namespace: &str) -> (r: Result<String, StorageError>)
        requires
            old(self).wf(),
        ensures
            final(self).wf(),
            match r {
                Ok(name) => name@ == namespace@,
                Err(_) => false,
            },
            final(self)@ == created(old(self)@, namespace@),
            final(self).namespace_order() == if old(self)@.contains_key(namespace@) {
                old(self).namespace_order()
            } else {
                old(self).namespace_order().push(namespace@)
            },
    {
        if self.namespaces.contains_key(namespace) {
            return Ok(namespace.to_owned());
        }
        let fresh = InMemNamespace::new();
        let ghost fresh_view = fresh@;
        self.namespaces.insert(namespace.to_owned(), fresh);
        assert(self@ =~= old(self)@.insert(namespace@, fresh_view));
        Ok(namespace.to_owned())
    }

    /// Removes the namespace and its contents, if it exists. Never fails.
    pub fn remove(&mut self, namespace: &str) -> (r: Result<(), StorageError>)
        requires
            old(self).wf(),
        ensures
            r is Ok,
            final(self).wf(),
            final(self)@ == old(self)@.remove(namespace@),
    {
        let _ = self.namespaces.remove(namespace);
        assert(self@ =~= old(self)@.remove(namespace@));
        Ok(())
    }

    /// With the empty name, the names of all namespaces, in the order in which
    /// they were created; any other name is refused with `NoNamespace`, since
    /// namespaces do not nest.
    pub fn list(&self, namespace: &str) -> (r: Result<Vec<String>, StorageError>)
        requires
            self.wf(),
        ensures
            match r {
                Ok(names) => namespace@.len() == 0 && string_views(names@)
                    == self.namespace_order(),
                Err(StorageError::NoNamespace(name)) => namespace@.len() != 0 && name@
                    == namespace@,
                Err(_) => false,
            },
    {
        if namespace.is_empty() {
            Ok(self.namespaces.keys())
        } else {
            Err(StorageError::NoNamespace(namespace.to_owned()))
        }
    }

    /// The namespace, to read and change it; `NoNamespace` when it does not exist.
    pub fn open(&mut self, namespace: &str) -> (r: Result<&mut InMemNamespace, StorageError>)
        requires
            old(self).wf(),
        ensures
            match r {
                Ok(ns) => {
                    &&& old(self)@.contains_key(namespace@)
                    &&& ns@ == old(self)@[namespace@]
                    &&& ns.wf()
                    &&& ns.key_order() == old(self).key_order_of(namespace@)
                    &&& final(self)@ == old(self)@.insert(namespace@, final(ns)@)
                    &&& final(self).namespace_order() == old(self).namespace_order()
                    &&& final(ns).wf() ==> final(self).wf()
                },
                Err(StorageError::NoNamespace(name)) => {
                    &&& !old(self)@.contains_key(namespace@)
                    &&& name@ == namespace@
                    &&& *final(self) == *old(self)
                },
                Err(_) => false,
            },
    {
        if !self.namespaces.contains_key(namespace) {
            return Err(StorageError::NoNamespace(namespace.to_owned()));
        }
        let ghost pre = self.namespaces@;
        match self.namespaces.get_mut(namespace) {
            Some(ns) => {
                proof {
                    lemma_replace_namespace(pre, namespace@, *final(ns));
                }
                Ok(ns)
            },
            None => Err(StorageError::NoNamespace(namespace.to_owned())),
        }
    }
}

impl Default for InMemStorage {
    fn default() -> (r: Self)
        ensures
            r.wf(),
            r@ == Map::<Seq<char>, Map<Seq<char>, Seq<u8>>>::empty(),
    {
        InMemStorage::new()
    }
}

/// A value put under a key is what a get of that key gives back, and putting
/// leaves the value under every other key as it was.
pub proof fn law_get_after_put(
    m: Map<Seq<char>, Seq<u8>>,
    key: Seq<char>,
    value: Seq<u8>,
    other: Seq<char>,
)
    ensures
        stored_value(after_put(m, key, value), key) == Some(value),
        other != key ==> stored_value(after_put(m, key, value), other) == stored_value(m, other),
{
}

/// After a delete a get of the key gives nothing back, and deleting leaves the
/// value under every other key as it was.
pub proof fn law_delete_removes(m: Map<Seq<char>, Seq<u8>>, key: Seq<char>, other: Seq<char>)
    ensures
        stored_value(after_delete(m, key), key) is None,
        other != key ==> stored_value(after_delete(m, key), other) == stored_value(m, other),
{
}

/// Deleting a key that a put added undoes the put.
pub proof fn law_delete_undoes_put(m: Map<Seq<char>, Seq<u8>>, key: Seq<char>, value: Seq<u8>)
    requires
        stored_value(m, key) is None,
    ensures
        after_delete(after_put(m, key, value), key) == m,
{
    assert(after_delete(after_put(m, key, value), key) =~= m);
}

/// Putting the same value twice is putting it once, and a later put under a
/// key replaces an earlier one.
pub proof fn law_put_idempotent(
    m: Map<Seq<char>, Seq<u8>>,
    key: Seq<char>,
    first: Seq<u8>,
    value: Seq<u8>,
)
    ensures
        after_put(after_put(m, key, value), key, value) == after_put(m, key, value),
        after_put(after_put(m, key, first), key, value) == after_put(m, key, value),
{
    assert(after_put(after_put(m, key, value), key, value) =~= after_put(m, key, value));
    assert(after_put(after_put(m, key, first), key, value) =~= after_put(m, key, value));
}

/// Creating a namespace makes it exist, keeps the contents of an existing one,
/// and creating it again changes nothing.
pub proof fn law_create(s: Map<Seq<char>, Map<Seq<char>, Seq<u8>>>, n: Seq<char>)
    ensures
        created(s, n).contains_key(n),
        s.contains_key(n) ==> created(s, n)[n] == s[n],
        !s.contains_key(n) ==> created(s, n)[n] == Map::<Seq<char>, Seq<u8>>::empty(),
        created(created(s, n), n) == created(s, n),
        forall|o: Seq<char>| o != n ==> (#[trigger] created(s, n).contains_key(o)) == s.contains_key(o),
{
}

/// Removing a namespace after creating it leaves what removing it alone leaves.
pub proof fn law_remove_after_create(s: Map<Seq<char>, Map<Seq<char>, Seq<u8>>>, n: Seq<char>)
    ensures
        created(s, n).remove(n) == s.remove(n),
        !created(s, n).remove(n).contains_key(n),
{
    assert(created(s, n).remove(n) =~= s.remove(n));
}

} // verus!
