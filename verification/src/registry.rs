//! The handler registry: at most one handler for each message type.

use crate::message::TypeKey;
use vstd::prelude::*;

verus! {

/// A handler and the key it is registered under.
struct Entry<H> {
    key: TypeKey,
    handler: H,
}

/// A table from the key of a message type to the handler registered for it.
/// In contracts a registry is the map `self@`.
pub struct Registry<H> {
    entries: Vec<Entry<H>>,
}

/// Whether no key occurs twice among the entries.
spec fn distinct_keys<H>(entries: Seq<Entry<H>>) -> bool {
    forall|i: int, j: int| 0 <= i < j < entries.len() ==> entries[i].key != entries[j].key
}

/// Whether some entry is registered under `key`.
spec fn has_key<H>(entries: Seq<Entry<H>>, key: TypeKey) -> bool {
    exists|i: int| 0 <= i < entries.len() && #[trigger] entries[i].key == key
}

/// The position of an entry registered under `key`.
spec fn position<H>(entries: Seq<Entry<H>>, key: TypeKey) -> int {
    choose|i: int| 0 <= i < entries.len() && #[trigger] entries[i].key == key
}

/// The map that the entries stand for.
spec fn entries_map<H>(entries: Seq<Entry<H>>) -> Map<TypeKey, H> {
    Map::new(
        |key: TypeKey| has_key(entries, key),
        |key: TypeKey| entries[position(entries, key)].handler,
    )
}

/// With distinct keys, the map holds each entry under its key and nothing
/// else.
proof fn lemma_entries_map<H>(entries: Seq<Entry<H>>)
    requires
        distinct_keys(entries),
    ensures
        forall|i: int|
            0 <= i < entries.len() ==> entries_map(entries).contains_key(
                #[trigger] entries[i].key,
            ) && entries_map(entries)[entries[i].key] == entries[i].handler,
        forall|key: TypeKey| #[trigger]
            entries_map(entries).contains_key(key) ==> 0 <= position(entries, key) < entries.len()
                && entries[position(entries, key)].key == key,
{
    assert forall|i: int| 0 <= i < entries.len() implies entries_map(entries).contains_key(
        #[trigger] entries[i].key,
    ) && entries_map(entries)[entries[i].key] == entries[i].handler by {
        let key = entries[i].key;
        assert(has_key(entries, key));
        let p = position(entries, key);
        assert(p == i);
    }
}

/// The map that the entries stand for has finitely many keys.
proof fn lemma_entries_finite<H>(entries: Seq<Entry<H>>)
    ensures
        entries_map(entries).dom().finite(),
{
    let keys = entries.map_values(|entry: Entry<H>| entry.key);
    assert forall|key: TypeKey| entries_map(entries).dom().contains(key) implies keys.to_set().contains(
        key,
    ) by {
        let p = position(entries, key);
        assert(keys[p] == key);
    }
    assert forall|key: TypeKey| keys.to_set().contains(key) implies entries_map(
        entries,
    ).dom().contains(key) by {
        let p = choose|i: int| 0 <= i < keys.len() && keys[i] == key;
        assert(entries[p].key == key);
    }
    assert(entries_map(entries).dom() =~= keys.to_set());
    vstd::seq_lib::seq_to_set_is_finite(keys);
}

impl<H> Registry<H> {
    /// No key has two handlers.
    #[verifier::type_invariant]
    spec fn well_formed(self) -> bool {
        distinct_keys(self.entries@)
    }

    /// The map from each registered key to its handler.
    pub closed spec fn view(&self) -> Map<TypeKey, H> {
        entries_map(self.entries@)
    }

    /// A registry holds handlers for finitely many message types.
    pub proof fn lemma_finite(&self)
        ensures
            self@.dom().finite(),
    {
        lemma_entries_finite(self.entries@);
    }

    /// A registry without handlers.
    pub fn new() -> (registry: Registry<H>)
        ensures
            registry@ == Map::<TypeKey, H>::empty(),
            registry@.dom().finite(),
    {
        let registry = Registry { entries: Vec::new() };
        assert(registry@ =~= Map::<TypeKey, H>::empty());
        registry
    }

    /// The position of the entry registered under `key`, if there is one.
    fn find(&self, key: TypeKey) -> (found: Option<usize>)
        ensures
            match found {
                Some(i) => i < self.entries.len() && self.entries[i as int].key == key,
                None => !has_key(self.entries@, key),
            },
    {
        let n: usize = self.entries.len();
        let mut i: usize = 0;
        while i < n
            invariant
                i <= n,
                n == self.entries.len(),
                forall|j: int| 0 <= j < i ==> self.entries[j].key != key,
            decreases n - i,
        {
            if self.entries[i].key.same(&key) {
                return Some(i);
            }
            i += 1;
        }
        None
    }

    /// Installs `handler` for `key`. A handler that was registered for `key`
    /// before is replaced and dropped; every other key keeps its handler.
    pub fn register(&mut self, key: TypeKey, handler: H)
        ensures
            final(self)@ == old(self)@.insert(key, handler),
            final(self)@.dom().finite(),
    {
        proof {
            use_type_invariant(&*self);
            lemma_entries_map(self.entries@);
        }
        let ghost before = self.entries@;
        let found = self.find(key);
        let mut entries: Vec<Entry<H>> = Vec::new();
        std::mem::swap(&mut entries, &mut self.entries);
        match found {
            Some(i) => {
                entries.set(i, Entry { key, handler });
            },
            None => {
                entries.push(Entry { key, handler });
            },
        }
        assert(distinct_keys(entries@));
        self.entries = entries;
        proof {
            let after = self.entries@;
            lemma_entries_map(after);
            assert forall|k: TypeKey| #[trigger]
                entries_map(after).contains_key(k) implies entries_map(before).insert(
                key,
                handler,
            ).contains_key(k) by {
                let p = position(after, k);
                if k != key {
                    assert(before[p].key == k);
                }
            }
            assert forall|k: TypeKey| #[trigger]
                entries_map(before).insert(key, handler).contains_key(k) implies entries_map(
                after,
            ).contains_key(k) && entries_map(after)[k] == entries_map(before).insert(
                key,
                handler,
            )[k] by {
                if k != key {
                    let p = position(before, k);
                    assert(after[p].key == k);
                    assert(after[p].handler == before[p].handler);
                } else {
                    let q = if before.len() == after.len() {
                        position(before, key)
                    } else {
                        after.len() - 1
                    };
                    assert(after[q].key == key);
                }
            }
            assert(entries_map(after) =~= entries_map(before).insert(key, handler));
            lemma_entries_finite(after);
        }
    }

    /// The handler registered for `key`, if there is one.
    pub fn lookup(&self, key: TypeKey) -> (handler: Option<&H>)
        ensures
            match handler {
                Some(h) => self@.get(key) == Some(*h),
                None => self@.get(key) is None,
            },
    {
        proof {
            use_type_invariant(self);
            lemma_entries_map(self.entries@);
        }
        match self.find(key) {
            Some(i) => Some(&self.entries[i].handler),
            None => None,
        }
    }
}

} // verus!
