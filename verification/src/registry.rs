//! The registries of the manager: tables from a document id to the identity
//! of a session, kept in a concurrent hash map.

use dashmap::DashMap;
use vstd::prelude::*;

verus! {

/// The identity of an editing session. The manager never hands out the same
/// identity twice.
pub type SessionId = u64;

/// A concurrent table from document ids to session identities.
pub type SessionTable = DashMap<String, u64>;

#[verifier::external_type_specification]
#[verifier::external_body]
#[verifier::reject_recursive_types(K)]
#[verifier::reject_recursive_types(V)]
#[verifier::reject_recursive_types(S)]
pub struct ExDashMap<K, V, S>(DashMap<K, V, S>);

/// The entries of a table: for each document id in it, the session it maps to.
pub uninterp spec fn table_entries(table: DashMap<String, u64>) -> Map<Seq<char>, u64>;

/// What a table holds under `key`, if anything.
pub open spec fn lookup(entries: Map<Seq<char>, u64>, key: Seq<char>) -> Option<u64> {
    if entries.contains_key(key) {
        Some(entries[key])
    } else {
        None
    }
}

/// `DashMap::new`: the map it returns has no entry.
#[verifier::external_body]
pub(crate) fn table_new() -> (table: SessionTable)
    ensures
        table_entries(table) =~= Map::empty(),
{
    DashMap::new()
}

/// `DashMap::get`: the value stored under `key`, copied out of the guard that
/// the map returns, or `None` where the map has no such key.
#[verifier::external_body]
pub(crate) fn table_get(table: &SessionTable, key: &str) -> (found: Option<u64>)
    ensures
        found == lookup(table_entries(*table), key@),
{
    table.get(key).map(|entry| *entry.value())
}

/// `DashMap::contains_key`: whether the map has an entry under `key`.
#[verifier::external_body]
pub(crate) fn table_contains_key(table: &SessionTable, key: &str) -> (found: bool)
    ensures
        found == table_entries(*table).contains_key(key@),
{
    table.contains_key(key)
}

/// `DashMap::insert`: stores `value` under `key`, in place of what was there,
/// and returns what was there.
#[verifier::external_body]
pub(crate) fn table_insert(table: &mut SessionTable, key: String, value: u64) -> (previous: Option<
    u64,
>)
    ensures
        table_entries(*final(table)) == table_entries(*old(table)).insert(key@, value),
        previous == lookup(table_entries(*old(table)), key@),
{
    table.insert(key, value)
}

/// `DashMap::remove`: takes the entry under `key` out of the map, if there is
/// one, and returns the value it held.
#[verifier::external_body]
pub(crate) fn table_remove(table: &mut SessionTable, key: &str) -> (removed: Option<u64>)
    ensures
        table_entries(*final(table)) == table_entries(*old(table)).remove(key@),
        removed == lookup(table_entries(*old(table)), key@),
{
    table.remove(key).map(|entry| entry.1)
}

/// `DashMap::iter`: every entry of the map once, in an order that the map
/// does not promise, each copied out of the guard that the iterator yields.
#[verifier::external_body]
pub(crate) fn table_pairs(table: &SessionTable) -> (pairs: Vec<(String, u64)>)
    ensures
        forall|i: int|
            0 <= i < pairs@.len() ==> lookup(table_entries(*table), (#[trigger] pairs@[i]).0@)
                == Some(pairs@[i].1),
        forall|i: int|
            forall|j: int|
                0 <= i < j < pairs@.len() ==> (#[trigger] pairs@[i]).0@ != (#[trigger] pairs@[j]).0@,
        forall|key: Seq<char>| #[trigger]
            table_entries(*table).contains_key(key) ==> exists|i: int|
                0 <= i < pairs@.len() && (#[trigger] pairs@[i]).0@ == key,
{
    table.iter().map(|entry| (entry.key().clone(), *entry.value())).collect()
}

/// The open sessions, by document id.
pub struct DocumentEditorHandlers {
    inner: SessionTable,
}

impl View for DocumentEditorHandlers {
    type V = Map<Seq<char>, u64>;

    closed spec fn view(&self) -> Map<Seq<char>, u64> {
        table_entries(self.inner)
    }
}

impl DocumentEditorHandlers {
    /// A registry without sessions.
    pub fn new() -> (handlers: DocumentEditorHandlers)
        ensures
            handlers@ == Map::<Seq<char>, u64>::empty(),
    {
        DocumentEditorHandlers { inner: table_new() }
    }

    /// Caches `session` as the session of `doc_id`. Returns the session that
    /// it shadows, if the document already had one.
    pub fn insert(&mut self, doc_id: &str, session: SessionId) -> (shadowed: Option<SessionId>)
        ensures
            final(self)@ == old(self)@.insert(doc_id@, session),
            shadowed == lookup(old(self)@, doc_id@),
    {
        table_insert(&mut self.inner, doc_id.to_owned(), session)
    }

    /// Whether `doc_id` has a cached session.
    pub fn contains(&self, doc_id: &str) -> (found: bool)
        ensures
            found == self@.contains_key(doc_id@),
    {
        table_contains_key(&self.inner, doc_id)
    }

    /// The cached session of `doc_id`.
    pub fn get(&self, doc_id: &str) -> (found: Option<SessionId>)
        ensures
            found == lookup(self@, doc_id@),
    {
        if !self.contains(doc_id) {
            return None;
        }
        table_get(&self.inner, doc_id)
    }

    /// Drops the cached session of `id` and returns it, for the caller to
    /// stop. Nothing changes where the document has none.
    pub fn remove(&mut self, id: &str) -> (stopped: Option<SessionId>)
        ensures
            final(self)@ == old(self)@.remove(id@),
            stopped == lookup(old(self)@, id@),
    {
        table_remove(&mut self.inner, id)
    }
}

} // verus!
