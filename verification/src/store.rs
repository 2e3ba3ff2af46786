//! The persistence substrate: a durable string-keyed store of text values,
//! backed by an embedded key-value database. The store is modelled as a
//! `Map<Seq<char>, Seq<char>>`; every operation is one atomic read or write
//! of a single key.

use vstd::prelude::*;
use crate::StoreError;

verus! {

#[verifier::external_type_specification]
#[verifier::external_body]
pub struct ExSledDb(sled::Db);

/// What the store holds, as a map from key text to value text. Values are
/// stored as UTF-8 bytes and read back with permissive decoding, so text
/// written through [`Store::set`] is read back unchanged.
pub uninterp spec fn store_contents(s: Store) -> Map<Seq<char>, Seq<char>>;

/// The contents of a store with nothing in it.
pub open spec fn empty_contents() -> Map<Seq<char>, Seq<char>> {
    Map::empty()
}

/// A handle to the persistent key-value store.
pub struct Store {
    db: sled::Db,
}

impl Store {
    /// The current contents of the store.
    pub open spec fn contents(&self) -> Map<Seq<char>, Seq<char>> {
        store_contents(*self)
    }

    /// Relies on `sled::open`: opens (or creates) the database at `path`.
    /// Nothing is known of the contents: the file may hold earlier entries.
    #[verifier::external_body]
    pub fn open(path: &str) -> (r: Result<Store, StoreError>) {
        match sled::open(path) {
            Ok(db) => Ok(Store { db }),
            Err(_) => Err(StoreError),
        }
    }

    /// Relies on `sled::Config::new`, `sled::Config::temporary` and
    /// `sled::Config::open`: a temporary database is created fresh at an
    /// unused location, so it starts empty and is removed when dropped.
    #[verifier::external_body]
    pub fn open_temporary() -> (r: Result<Store, StoreError>)
        ensures
            r matches Ok(s) ==> store_contents(s) == empty_contents(),
    {
        match sled::Config::new().temporary(true).open() {
            Ok(db) => Ok(Store { db }),
            Err(_) => Err(StoreError),
        }
    }

    /// Relies on `sled::Tree::get`: returns the value stored at `key`, or
    /// `None` when the key is absent. The stored bytes are decoded
    /// permissively (`String::from_utf8_lossy`), which returns text written
    /// through [`Store::set`] unchanged.
    #[verifier::external_body]
    pub fn get(&self, key: &str) -> (r: Result<Option<String>, StoreError>)
        ensures
            r matches Ok(v) ==> (v matches Some(t) ==> store_contents(*self).contains_key(key@)
                && t@ == store_contents(*self)[key@]),
            r matches Ok(v) && v is None ==> !store_contents(*self).contains_key(key@),
    {
        match self.db.get(key.as_bytes()) {
            Ok(Some(ivec)) => Ok(Some(String::from_utf8_lossy(ivec.as_ref()).into_owned())),
            Ok(None) => Ok(None),
            Err(_) => Err(StoreError),
        }
    }

    /// Relies on `sled::Tree::insert`: creates or overwrites the entry at
    /// `key` in one atomic write. On failure nothing is known of the state.
    #[verifier::external_body]
    pub fn set(&mut self, key: &str, value: &str) -> (r: Result<(), StoreError>)
        ensures
            r is Ok ==> store_contents(*final(self)) == store_contents(*old(self)).insert(
                key@,
                value@,
            ),
    {
        match self.db.insert(key.as_bytes(), value.as_bytes()) {
            Ok(_) => Ok(()),
            Err(_) => Err(StoreError),
        }
    }

    /// Relies on `sled::Tree::remove`: deletes the entry at `key` in one
    /// atomic write; removing an absent key succeeds and changes nothing.
    #[verifier::external_body]
    pub fn remove(&mut self, key: &str) -> (r: Result<(), StoreError>)
        ensures
            r is Ok ==> store_contents(*final(self)) == store_contents(*old(self)).remove(key@),
    {
        match self.db.remove(key.as_bytes()) {
            Ok(_) => Ok(()),
            Err(_) => Err(StoreError),
        }
    }
}

} // verus!
