//! The store: a map from keys to typed values that refuses every access
//! once a write has failed to complete.

use crate::kv_store::kv_error::ErrorKind;
use crate::kv_store::kv_error::ErrorModel;
use crate::kv_store::kv_error::KVError;
use crate::kv_store::kv_error::outcome;
use image::DynamicImage;
use vstd::hash_map::StringHashMap;
use vstd::prelude::*;

verus! {

/// A value as it lies in the store.
#[derive(Debug)]
pub enum StoredType {
    /// A decoded picture.
    Image(DynamicImage),
    /// Bytes that were not declared to be an image, with the content type
    /// they were declared under.
    Other { content_type: String, bytes: Vec<u8> },
}

/// What contracts see of a stored value.
pub enum StoredValue {
    Image(DynamicImage),
    Raw { content_type: Seq<char>, bytes: Seq<u8> },
}

impl View for StoredType {
    type V = StoredValue;

    open spec fn view(&self) -> StoredValue {
        match self {
            StoredType::Image(picture) => StoredValue::Image(*picture),
            StoredType::Other { content_type, bytes } => StoredValue::Raw {
                content_type: content_type@,
                bytes: bytes@,
            },
        }
    }
}

/// What contracts see of the store: whether it is
/// poisoned, and the value under each key.
pub struct StoreModel {
    pub poisoned: bool,
    pub entries: Map<Seq<char>, StoredValue>,
}

impl StoreModel {
    /// The store as it is created.
    pub open spec fn empty() -> StoreModel {
        StoreModel { poisoned: false, entries: Map::empty() }
    }

    /// The store with `value` under `key`, in place of what was there.
    pub open spec fn with(self, key: Seq<char>, value: StoredValue) -> StoreModel {
        StoreModel { poisoned: self.poisoned, entries: self.entries.insert(key, value) }
    }

    /// What every access meets first: a poisoned store refuses it.
    pub open spec fn guard(self) -> Result<(), ErrorModel> {
        if self.poisoned {
            Err(ErrorModel::of(ErrorKind::LockPoisoned))
        } else {
            Ok(())
        }
    }

    /// What a lookup of `key` gives.
    pub open spec fn get(self, key: Seq<char>) -> Result<StoredValue, ErrorModel> {
        if self.poisoned {
            Err(ErrorModel::of(ErrorKind::LockPoisoned))
        } else if self.entries.contains_key(key) {
            Ok(self.entries[key])
        } else {
            Err(ErrorModel::of(ErrorKind::NotFound))
        }
    }

    /// The store after `value` was put under `key`.
    pub open spec fn put(self, key: Seq<char>, value: StoredValue) -> StoreModel {
        if self.poisoned {
            self
        } else {
            self.with(key, value)
        }
    }

    /// The store after `key` was deleted.
    pub open spec fn delete(self, key: Seq<char>) -> StoreModel {
        if self.poisoned {
            self
        } else {
            StoreModel { poisoned: false, entries: self.entries.remove(key) }
        }
    }

    /// The store after it was cleared.
    pub open spec fn clear(self) -> StoreModel {
        if self.poisoned {
            self
        } else {
            StoreModel::empty()
        }
    }

    /// The store after a write that did not complete: its entries stay as
    /// they were found, and it is poisoned.
    pub open spec fn poison(self) -> StoreModel {
        StoreModel { poisoned: true, entries: self.entries }
    }
}

/// A store that holds finitely many keys holds finitely many after every
/// operation, so the number of its entries can be reasoned about.
pub proof fn lemma_entries_stay_finite(store: StoreModel, key: Seq<char>, value: StoredValue)
    requires
        store.entries.dom().finite(),
    ensures
        StoreModel::empty().entries.dom().finite(),
        store.with(key, value).entries.dom().finite(),
        store.put(key, value).entries.dom().finite(),
        store.delete(key).entries.dom().finite(),
        store.clear().entries.dom().finite(),
        store.poison().entries.dom().finite(),
{
}

/// The store. A poisoned store answers every access with `LockPoisoned`
/// and never changes again.
pub struct AppState {
    db: StringHashMap<StoredType>,
    poisoned: bool,
}

impl View for AppState {
    type V = StoreModel;

    closed spec fn view(&self) -> StoreModel {
        StoreModel {
            poisoned: self.poisoned,
            entries: self.db@.map_values(|value: StoredType| value@),
        }
    }
}

impl Default for AppState {
    fn default() -> (store: Self)
        ensures
            store@ == StoreModel::empty(),
            store@.entries.dom().finite(),
    {
        AppState::new()
    }
}

impl AppState {
    /// An empty store that is not poisoned.
    pub fn new() -> (store: Self)
        ensures
            store@ == StoreModel::empty(),
            store@.entries.dom().finite(),
    {
        let store = AppState { db: StringHashMap::new(), poisoned: false };
        assert(store@.entries =~= Map::empty());
        store
    }

    pub fn is_poisoned(&self) -> (poisoned: bool)
        ensures
            poisoned == self@.poisoned,
    {
        self.poisoned
    }

    /// Marks the store as left behind by a write that did not complete.
    pub fn poison(&mut self)
        ensures
            final(self)@ == old(self)@.poison(),
    {
        self.poisoned = true;
    }

    /// The value under `key`.
    pub fn get(&self, key: &str) -> (found: Result<&StoredType, KVError>)
        ensures
            outcome(found) == self@.get(key@),
    {
        if self.poisoned {
            return Err(KVError::of(ErrorKind::LockPoisoned));
        }
        match self.db.get(key) {
            Some(value) => Ok(value),
            None => Err(KVError::of(ErrorKind::NotFound)),
        }
    }

    /// Puts `value` under `key`, in place of what was there.
    pub fn put(&mut self, key: String, value: StoredType) -> (done: Result<(), KVError>)
        ensures
            outcome(done) == old(self)@.guard(),
            final(self)@ == old(self)@.put(key@, value@),
    {
        if self.poisoned {
            return Err(KVError::of(ErrorKind::LockPoisoned));
        }
        self.db.insert(key, value);
        assert(final(self)@.entries =~= old(self)@.entries.insert(key@, value@));
        Ok(())
    }

    /// Removes what lies under `key`; an absent key is no error.
    pub fn delete(&mut self, key: &str) -> (done: Result<(), KVError>)
        ensures
            outcome(done) == old(self)@.guard(),
            final(self)@ == old(self)@.delete(key@),
    {
        if self.poisoned {
            return Err(KVError::of(ErrorKind::LockPoisoned));
        }
        self.db.remove(key);
        assert(final(self)@.entries =~= old(self)@.entries.remove(key@));
        Ok(())
    }

    /// Removes every entry.
    pub fn clear(&mut self) -> (done: Result<(), KVError>)
        ensures
            outcome(done) == old(self)@.guard(),
            final(self)@ == old(self)@.clear(),
    {
        if self.poisoned {
            return Err(KVError::of(ErrorKind::LockPoisoned));
        }
        self.db.clear();
        assert(final(self)@.entries =~= Map::empty());
        Ok(())
    }
}

} // verus!
