use vstd::prelude::*;

use dashmap::DashMap;

use crate::fuse::inode::Inode;

verus! {

/// `dashmap::DashMap`, a concurrent hash map; opaque here.
#[verifier::external_type_specification]
#[verifier::external_body]
#[verifier::reject_recursive_types(K)]
#[verifier::reject_recursive_types(V)]
#[verifier::reject_recursive_types(S)]
pub struct ExDashMap<K, V, S>(DashMap<K, V, S>);

/// Paths and the inodes they name, shared between threads.
pub type PathMap = DashMap<String, Inode>;

/// The entries of a path map: each path, as text, with its inode number.
pub uninterp spec fn spec_dashmap_entries(m: PathMap) -> Map<Seq<char>, u64>;

/// No paths at all.
pub open spec fn no_paths() -> Map<Seq<char>, u64> {
    Map::empty()
}

/// Calls `DashMap::new`: a map with no entries.
#[verifier::external_body]
fn dashmap_new() -> (r: PathMap)
    ensures
        spec_dashmap_entries(r) == no_paths(),
{
    DashMap::new()
}

/// Calls `DashMap::insert`: the key now maps to the value, in place of any
/// value it had; the other entries stay.
#[verifier::external_body]
fn dashmap_insert(m: &mut PathMap, key: String, value: Inode)
    ensures
        spec_dashmap_entries(*final(m)) == spec_dashmap_entries(*old(m)).insert(key@, value.0),
{
    m.insert(key, value);
}

/// Calls `DashMap::get` and copies the value out: the key's value, if the
/// map has the key.
#[verifier::external_body]
fn dashmap_get(m: &PathMap, key: &str) -> (r: Option<Inode>)
    ensures
        r is Some <==> spec_dashmap_entries(*m).dom().contains(key@),
        r matches Some(i) ==> i.0 == spec_dashmap_entries(*m)[key@],
{
    match m.get(key) {
        Some(v) => Some(*v),
        None => None,
    }
}

/// Calls `DashMap::remove`: the key no longer has an entry; the other
/// entries stay.
#[verifier::external_body]
fn dashmap_remove(m: &mut PathMap, key: &str)
    ensures
        spec_dashmap_entries(*final(m)) == spec_dashmap_entries(*old(m)).remove(key@),
{
    m.remove(key);
}

/// Calls `DashMap::contains_key`: whether the map has the key.
#[verifier::external_body]
fn dashmap_contains_key(m: &PathMap, key: &str) -> (r: bool)
    ensures
        r == spec_dashmap_entries(*m).dom().contains(key@),
{
    m.contains_key(key)
}

/// Calls `DashMap::len`: the number of entries.
#[verifier::external_body]
fn dashmap_len(m: &PathMap) -> (r: usize)
    ensures
        r == spec_dashmap_entries(*m).dom().len(),
{
    m.len()
}

/// The inode of each known path.
pub struct PathIndex {
    entries: PathMap,
}

impl PathIndex {
    /// Each known path, as text, with its inode number.
    pub closed spec fn spec_entries(&self) -> Map<Seq<char>, u64> {
        spec_dashmap_entries(self.entries)
    }

    /// An index with no paths.
    pub fn new() -> (p: Self)
        ensures
            p.spec_entries() == Map::<Seq<char>, u64>::empty(),
    {
        PathIndex { entries: dashmap_new() }
    }

    /// Records that `path` names `inode`, in place of what it named before.
    pub fn insert(&mut self, path: &str, inode: Inode)
        ensures
            final(self).spec_entries() == old(self).spec_entries().insert(path@, inode.0),
    {
        dashmap_insert(&mut self.entries, crate::util::text::str_to_string(path), inode);
    }

    /// The inode `path` names, if it is known.
    pub fn lookup(&self, path: &str) -> (r: Option<Inode>)
        ensures
            r is Some <==> self.spec_entries().dom().contains(path@),
            r matches Some(i) ==> i.0 == self.spec_entries()[path@],
    {
        dashmap_get(&self.entries, path)
    }

    /// Forgets `path`.
    pub fn remove(&mut self, path: &str)
        ensures
            final(self).spec_entries() == old(self).spec_entries().remove(path@),
    {
        dashmap_remove(&mut self.entries, path);
    }

    /// Whether `path` is known.
    pub fn contains(&self, path: &str) -> (r: bool)
        ensures
            r == self.spec_entries().dom().contains(path@),
    {
        dashmap_contains_key(&self.entries, path)
    }

    /// How many paths are known.
    pub fn len(&self) -> (n: usize)
        ensures
            n == self.spec_entries().dom().len(),
    {
        dashmap_len(&self.entries)
    }
}

impl Default for PathIndex {
    /// The same as `PathIndex::new`.
    fn default() -> (p: Self)
        ensures
            p.spec_entries() == Map::<Seq<char>, u64>::empty(),
    {
        Self::new()
    }
}

/// What a lookup gives back of an insert: after `insert(path, inode)`,
/// `lookup(path)` finds `inode` and every other path keeps what it named;
/// after `remove(path)`, `lookup(path)` finds nothing.
pub proof fn law_path_index_insert_lookup(before: Map<Seq<char>, u64>, path: Seq<char>, inode: u64, other: Seq<char>)
    ensures
        before.insert(path, inode).dom().contains(path),
        before.insert(path, inode)[path] == inode,
        !before.remove(path).dom().contains(path),
        other != path ==> before.insert(path, inode).dom().contains(other) == before.dom().contains(other),
        other != path && before.dom().contains(other) ==> before.insert(path, inode)[other] == before[other],
{
}

} // verus!
