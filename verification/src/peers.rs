//! The peer table: the links that are alive, by the peer's address.
//!
//! The table is a `dashmap::DashMap`. Every operation here takes it by an
//! exclusive or a shared reference of the table's one owner, so what it
//! holds between two calls is what the earlier call left.

use vstd::prelude::*;
use dashmap::DashMap;

verus! {

/// `dashmap::DashMap`, a hash map made for sharing.
#[verifier::external_type_specification]
#[verifier::external_body]
#[verifier::reject_recursive_types(K)]
#[verifier::reject_recursive_types(V)]
#[verifier::reject_recursive_types(S)]
pub struct ExDashMap<K, V, S>(DashMap<K, V, S>);

/// What a table holds: for each address, the number of its link.
pub uninterp spec fn table_entries(m: DashMap<String, u64>) -> Map<Seq<char>, u64>;

/// `DashMap::new` is an empty map.
#[verifier::external_body]
fn table_new() -> (m: DashMap<String, u64>)
    ensures
        table_entries(m).dom() == Set::<Seq<char>>::empty(),
{
    DashMap::new()
}

/// `DashMap::insert` sets the key's value and returns the one it had.
#[verifier::external_body]
fn table_insert(m: &mut DashMap<String, u64>, key: String, value: u64) -> (previous: Option<u64>)
    ensures
        table_entries(*final(m)) == table_entries(*old(m)).insert(key@, value),
        previous == if table_entries(*old(m)).contains_key(key@) {
            Some(table_entries(*old(m))[key@])
        } else {
            None
        },
{
    m.insert(key, value)
}

/// `DashMap::remove` takes the key out and returns what was under it; the
/// key that comes with the value is dropped.
#[verifier::external_body]
fn table_remove(m: &mut DashMap<String, u64>, key: &str) -> (removed: Option<u64>)
    ensures
        table_entries(*final(m)) == table_entries(*old(m)).remove(key@),
        removed == if table_entries(*old(m)).contains_key(key@) {
            Some(table_entries(*old(m))[key@])
        } else {
            None
        },
{
    m.remove(key).map(|entry| entry.1)
}

/// `DashMap::get` finds the key's value, which is copied out of the guard
/// that the map hands back.
#[verifier::external_body]
fn table_get(m: &DashMap<String, u64>, key: &str) -> (found: Option<u64>)
    ensures
        found == if table_entries(*m).contains_key(key@) {
            Some(table_entries(*m)[key@])
        } else {
            None
        },
{
    m.get(key).map(|entry| *entry.value())
}

/// `DashMap::contains_key` tells whether the key is in the map.
#[verifier::external_body]
fn table_contains(m: &DashMap<String, u64>, key: &str) -> (found: bool)
    ensures
        found == table_entries(*m).contains_key(key@),
{
    m.contains_key(key)
}

/// Whether a list names each key of a map once and nothing else.
pub open spec fn lists_keys(list: Seq<Seq<char>>, entries: Map<Seq<char>, u64>) -> bool {
    &&& list.no_duplicates()
    &&& forall|i: int| 0 <= i < list.len() ==> entries.contains_key(#[trigger] list[i])
    &&& forall|key: Seq<char>| entries.contains_key(key) ==> list.contains(key)
}

/// The texts of a list of strings.
pub open spec fn texts(list: Seq<String>) -> Seq<Seq<char>> {
    Seq::new(list.len(), |i: int| list[i]@)
}

/// `DashMap::iter` walks all entries, each once; their keys are copied
/// out. The order is the map's own and is not promised.
#[verifier::external_body]
fn table_keys(m: &DashMap<String, u64>) -> (keys: Vec<String>)
    ensures
        lists_keys(texts(keys@), table_entries(*m)),
{
    m.iter().map(|entry| entry.key().clone()).collect()
}

/// The live links of a node, by address.
pub struct PeerTable {
    links: DashMap<String, u64>,
}

impl View for PeerTable {
    type V = Map<Seq<char>, u64>;

    closed spec fn view(&self) -> Map<Seq<char>, u64> {
        table_entries(self.links)
    }
}

impl PeerTable {
    /// A table without links.
    pub fn new() -> (t: Self)
        ensures
            t@.dom() == Set::<Seq<char>>::empty(),
    {
        PeerTable { links: table_new() }
    }

    /// Registers the link `link` under `address`, in place of any link
    /// that stood there, which is returned.
    pub fn register(&mut self, address: String, link: u64) -> (previous: Option<u64>)
        ensures
            final(self)@ == old(self)@.insert(address@, link),
            previous == if old(self)@.contains_key(address@) {
                Some(old(self)@[address@])
            } else {
                None
            },
    {
        table_insert(&mut self.links, address, link)
    }

    /// Forgets the link under `address` and returns it, if there was one.
    /// No other entry changes.
    pub fn remove(&mut self, address: &str) -> (removed: Option<u64>)
        ensures
            final(self)@ == old(self)@.remove(address@),
            removed == if old(self)@.contains_key(address@) {
                Some(old(self)@[address@])
            } else {
                None
            },
    {
        table_remove(&mut self.links, address)
    }

    /// The link under `address`, if there is one.
    pub fn link(&self, address: &str) -> (found: Option<u64>)
        ensures
            found == if self@.contains_key(address@) {
                Some(self@[address@])
            } else {
                None
            },
    {
        table_get(&self.links, address)
    }

    /// Whether a link stands under `address`.
    pub fn contains(&self, address: &str) -> (found: bool)
        ensures
            found == self@.contains_key(address@),
    {
        table_contains(&self.links, address)
    }

    /// The addresses of all links, each once, in no promised order.
    pub fn addresses(&self) -> (list: Vec<String>)
        ensures
            lists_keys(texts(list@), self@),
    {
        table_keys(&self.links)
    }
}

} // verus!
