//! Read-side configuration access: an in-memory snapshot of the settings
//! table, and the query handler serving lookups from it.

use vstd::prelude::*;

use crate::domain::AppError;
use crate::registry::assoc_map;
use crate::registry::assoc_unique;

verus! {

/// Query for one configuration value.
#[derive(Debug)]
pub struct GetConfigQuery {
    pub key: String,
}

/// Query for every configuration entry.
#[derive(Debug)]
pub struct GetAllConfigQuery;

/// A snapshot of the settings table, keyed by setting name.
pub struct ConfigStore {
    entries: Vec<(String, String)>,
}

impl ConfigStore {
    /// The settings as a map from name to value.
    pub closed spec fn map(&self) -> Map<Seq<char>, String> {
        assoc_map(self.entries@)
    }

    pub closed spec fn wf(&self) -> bool {
        assoc_unique(self.entries@)
    }

    pub fn new() -> (r: ConfigStore)
        ensures
            r.wf(),
            r.map() == Map::<Seq<char>, String>::empty(),
    {
        ConfigStore { entries: Vec::new() }
    }

    /// Sets one value, replacing any previous value under the same name.
    pub fn set(&mut self, key: String, value: String) -> (r: ())
        requires
            old(self).wf(),
        ensures
            final(self).wf(),
            final(self).map() == old(self).map().insert(key@, value),
    {
        match crate::registry::find_idx(&self.entries, key.as_str()) {
            Some(i) => {
                proof {
                    crate::registry::lemma_assoc_remove(self.entries@, i as int);
                }
                let ghost mid = self.entries@.remove(i as int);
                self.entries.remove(i);
                proof {
                    crate::registry::lemma_assoc_push(mid, (key, value));
                    crate::registry::lemma_assoc_contains(mid, key@);
                    crate::registry::lemma_assoc_push_unique(mid, (key, value));
                    assert(assoc_map(mid.push((key, value))) =~= assoc_map(
                        old(self).entries@,
                    ).insert(key@, value));
                }
                self.entries.push((key, value));
            },
            None => {
                proof {
                    crate::registry::lemma_assoc_push(self.entries@, (key, value));
                    crate::registry::lemma_assoc_push_unique(self.entries@, (key, value));
                }
                self.entries.push((key, value));
            },
        }
    }

    /// Every entry of the snapshot, as name-value pairs with unique names.
    pub fn all(&self) -> (r: Vec<(String, String)>)
        requires
            self.wf(),
        ensures
            assoc_map(r@) == self.map(),
            assoc_unique(r@),
    {
        let mut out: Vec<(String, String)> = Vec::new();
        let mut i: usize = 0;
        while i < self.entries.len()
            invariant
                0 <= i <= self.entries@.len(),
                out@.len() == i,
                forall|k: int| 0 <= k < i ==> #[trigger] out@[k] == self.entries@[k],
            decreases self.entries@.len() - i,
        {
            let pair = &self.entries[i];
            out.push((pair.0.clone(), pair.1.clone()));
            i = i + 1;
        }
        proof {
            assert(out@ =~= self.entries@);
        }
        out
    }

    /// The value stored under `key`, if any.
    pub fn get<'a>(&'a self, key: &str) -> (r: Option<&'a String>)
        requires
            self.wf(),
        ensures
            match r {
                Some(v) => self.map().contains_key(key@) && *v == self.map()[key@],
                None => !self.map().contains_key(key@),
            },
    {
        proof {
            crate::registry::lemma_assoc_contains(self.entries@, key@);
        }
        match crate::registry::find_idx(&self.entries, key) {
            Some(i) => {
                proof {
                    crate::registry::lemma_assoc_lookup(self.entries@, i as int);
                }
                Some(&self.entries[i].1)
            },
            None => None,
        }
    }
}

/// Handles configuration queries against a snapshot of the settings.
pub struct ConfigQueryHandler {
    store: ConfigStore,
}

impl ConfigQueryHandler {
    /// The settings the handler serves.
    pub closed spec fn map(&self) -> Map<Seq<char>, String> {
        self.store.map()
    }

    pub closed spec fn wf(&self) -> bool {
        self.store.wf()
    }

    pub fn new(store: ConfigStore) -> (r: ConfigQueryHandler)
        requires
            store.wf(),
        ensures
            r.wf(),
            r.map() == store.map(),
    {
        ConfigQueryHandler { store }
    }

    /// Looks one setting up. Reads never fail against a snapshot.
    pub fn handle(&self, query: GetConfigQuery) -> (r: Result<Option<String>, AppError>)
        requires
            self.wf(),
        ensures
            match r {
                Ok(Some(v)) => self.map().contains_key(query.key@) && v == self.map()[query.key@],
                Ok(None) => !self.map().contains_key(query.key@),
                Err(_) => false,
            },
    {
        match self.store.get(query.key.as_str()) {
            Some(v) => Ok(Some(v.clone())),
            None => Ok(None),
        }
    }

    /// Hands out every setting. Reads never fail against a snapshot.
    pub fn handle_all(&self, _query: GetAllConfigQuery) -> (r: Result<
        Vec<(String, String)>,
        AppError,
    >)
        requires
            self.wf(),
        ensures
            match r {
                Ok(entries) => assoc_map(entries@) == self.map() && assoc_unique(entries@),
                Err(_) => false,
            },
    {
        Ok(self.store.all())
    }
}

} // verus!
