use vstd::prelude::*;

use crate::metadata::file_meta::FileMeta;
use crate::util::clock::now_secs;
use crate::util::text::str_to_string;

verus! {

/// A file record and the key it is kept under.
#[derive(Debug)]
pub struct ManifestEntry {
    pub key: String,
    pub meta: FileMeta,
}

/// The files of the store, each under its key; a later entry for a key
/// stands over an earlier one.
pub open spec fn spec_entries_map(entries: Seq<ManifestEntry>) -> Map<Seq<char>, FileMeta>
    decreases entries.len(),
{
    if entries.len() == 0 {
        Map::empty()
    } else {
        spec_entries_map(entries.drop_last()).insert(entries.last().key@, entries.last().meta)
    }
}

/// No two entries share a key.
pub open spec fn spec_paths_unique(entries: Seq<ManifestEntry>) -> bool {
    forall|i: int, j: int| 0 <= i < j < entries.len() ==> #[trigger] entries[i].key@ != #[trigger] entries[j].key@
}

/// The file records of the store, keyed by path.
#[derive(Debug)]
pub struct Manifest {
    pub entries: Vec<ManifestEntry>,
    pub created_at: u64,
    pub version: u64,
}

fn same_text(a: &String, b: &String) -> (r: bool)
    ensures
        r == (a@ == b@),
{
    let n = a.as_str().unicode_len();
    if n != b.as_str().unicode_len() {
        return false;
    }
    let mut i: usize = 0;
    while i < n
        invariant
            i <= n,
            n == a@.len(),
            n == b@.len(),
            forall|k: int| 0 <= k < i ==> a@[k] == b@[k],
        decreases n - i,
    {
        if a.as_str().get_char(i) != b.as_str().get_char(i) {
            return false;
        }
        i = i + 1;
    }
    assert(a@ =~= b@);
    true
}

impl Manifest {
    /// The paths and their records.
    pub open spec fn spec_map(&self) -> Map<Seq<char>, FileMeta> {
        spec_entries_map(self.entries@)
    }

    /// An empty manifest, version 1, stamped with the current time.
    pub fn new() -> (m: Self)
        ensures
            m.entries@.len() == 0,
            m.spec_map() == Map::<Seq<char>, FileMeta>::empty(),
            m.version == 1,
    {
        Manifest { entries: Vec::new(), created_at: now_secs(), version: 1 }
    }

    /// Records `meta` under its path, in place of any record the path had.
    pub fn add_file(&mut self, meta: FileMeta)
        ensures
            final(self).spec_map() == old(self).spec_map().insert(meta.path@, meta),
            spec_paths_unique(old(self).entries@) ==> spec_paths_unique(final(self).entries@),
            final(self).created_at == old(self).created_at,
            final(self).version == old(self).version,
    {
        let key = str_to_string(meta.path.as_str());
        self.insert(key, meta);
    }

    /// Records `meta` under `key`, in place of any record the key had.
    pub fn insert(&mut self, key: String, meta: FileMeta)
        ensures
            final(self).spec_map() == old(self).spec_map().insert(key@, meta),
            spec_paths_unique(old(self).entries@) ==> spec_paths_unique(final(self).entries@),
            final(self).created_at == old(self).created_at,
            final(self).version == old(self).version,
    {
        let ghost k = key@;
        let ghost before = self.entries@;
        self.drop_path(&key);
        let ghost kept = self.entries@;
        self.entries.push(ManifestEntry { key, meta });
        proof {
            assert(self.entries@.drop_last() =~= kept);
            assert(spec_entries_map(before).remove(k).insert(k, meta) =~= spec_entries_map(before).insert(k, meta));
            if spec_paths_unique(before) {
                assert forall|i: int, j: int| 0 <= i < j < self.entries@.len() implies #[trigger] self.entries@[i].key@ != #[trigger] self.entries@[j].key@ by {
                    if j == self.entries@.len() - 1 {
                        assert(kept[i].key@ != k);
                    } else {
                        assert(kept[i] == self.entries@[i] && kept[j] == self.entries@[j]);
                    }
                }
            }
        }
    }

    /// Removes the record of `path`, if there is one.
    pub fn remove_file(&mut self, path: &str)
        ensures
            final(self).spec_map() == old(self).spec_map().remove(path@),
            spec_paths_unique(old(self).entries@) ==> spec_paths_unique(final(self).entries@),
            final(self).created_at == old(self).created_at,
            final(self).version == old(self).version,
    {
        let key = str_to_string(path);
        self.drop_path(&key);
    }

    /// The record kept under `path`, if there is one.
    pub fn get(&self, path: &str) -> (r: Option<&FileMeta>)
        ensures
            r is Some <==> self.spec_map().dom().contains(path@),
            r matches Some(m) ==> *m == self.spec_map()[path@],
    {
        let key = str_to_string(path);
        let mut i: usize = self.entries.len();
        while i > 0
            invariant
                i <= self.entries@.len(),
                key@ == path@,
                forall|m: int| i <= m < self.entries@.len() ==> #[trigger] self.entries@[m].key@ != path@,
            decreases i,
        {
            if same_text(&self.entries[i - 1].key, &key) {
                proof {
                    lemma_last_occurrence(self.entries@, i - 1, path@);
                }
                return Some(&self.entries[i - 1].meta);
            }
            i = i - 1;
        }
        proof {
            lemma_absent(self.entries@, path@);
        }
        None
    }

    /// Takes out every record of `key`, keeping the others in order.
    fn drop_path(&mut self, key: &String)
        ensures
            spec_entries_map(final(self).entries@) == spec_entries_map(old(self).entries@).remove(key@),
            forall|i: int| 0 <= i < final(self).entries@.len() ==> #[trigger] final(self).entries@[i].key@ != key@,
            spec_paths_unique(old(self).entries@) ==> spec_paths_unique(final(self).entries@),
            final(self).created_at == old(self).created_at,
            final(self).version == old(self).version,
    {
        let ghost orig = self.entries@;
        let ghost mut j: int = 0;
        let ghost mut idx: Seq<int> = Seq::empty();
        let mut i: usize = 0;
        assert(orig.subrange(0, 0) =~= Seq::<ManifestEntry>::empty());
        assert(self.entries@.subrange(0, 0) =~= Seq::<ManifestEntry>::empty());
        assert(self.entries@.subrange(0, self.entries@.len() as int) =~= orig.subrange(0, orig.len() as int));
        while i < self.entries.len()
            invariant
                i <= self.entries@.len(),
                0 <= j <= orig.len(),
                self.created_at == old(self).created_at,
                self.version == old(self).version,
                orig == old(self).entries@,
                self.entries@.subrange(i as int, self.entries@.len() as int) == orig.subrange(j, orig.len() as int),
                spec_entries_map(self.entries@.subrange(0, i as int)) == spec_entries_map(orig.subrange(0, j)).remove(key@),
                forall|a: int| 0 <= a < i ==> #[trigger] self.entries@[a].key@ != key@,
                idx.len() == i,
                forall|a: int| 0 <= a < i ==> 0 <= #[trigger] idx[a] < j && self.entries@[a] == orig[idx[a]],
                forall|a: int, b: int| 0 <= a < b < i ==> #[trigger] idx[a] < #[trigger] idx[b],
            decreases self.entries@.len() - i,
        {
            let ghost cur = self.entries@;
            proof {
                assert(cur.subrange(i as int, cur.len() as int).len() == orig.subrange(j, orig.len() as int).len());
                assert(j < orig.len());
                assert forall|k: int| 0 <= k < cur.len() - i implies #[trigger] cur[i + k] == orig[j + k] by {
                    assert(cur.subrange(i as int, cur.len() as int)[k] == orig.subrange(j, orig.len() as int)[k]);
                }
                assert(cur[i as int] == cur.subrange(i as int, cur.len() as int)[0]);
                assert(orig[j] == orig.subrange(j, orig.len() as int)[0]);
                assert(orig.subrange(0, j + 1).drop_last() =~= orig.subrange(0, j));
            }
            if same_text(&self.entries[i].key, key) {
                let _gone = self.entries.remove(i);
                proof {
                    assert(self.entries@.subrange(0, i as int) =~= cur.subrange(0, i as int));
                    assert forall|k: int| 0 <= k < self.entries@.len() - i implies #[trigger] self.entries@.subrange(i as int, self.entries@.len() as int)[k] == orig.subrange(j + 1, orig.len() as int)[k] by {
                        assert(cur[i + (k + 1)] == orig[j + (k + 1)]);
                    }
                    assert(self.entries@.subrange(i as int, self.entries@.len() as int) =~= orig.subrange(j + 1, orig.len() as int));
                    assert(spec_entries_map(orig.subrange(0, j + 1)).remove(key@) =~= spec_entries_map(orig.subrange(0, j)).remove(key@));
                    j = j + 1;
                }
            } else {
                proof {
                    let e = cur[i as int];
                    assert(cur.subrange(0, i + 1).drop_last() =~= cur.subrange(0, i as int));
                    assert(spec_entries_map(orig.subrange(0, j)).remove(key@).insert(e.key@, e.meta) =~= spec_entries_map(orig.subrange(0, j + 1)).remove(key@));
                    assert forall|k: int| 0 <= k < cur.len() - i - 1 implies #[trigger] cur.subrange(i + 1, cur.len() as int)[k] == orig.subrange(j + 1, orig.len() as int)[k] by {
                        assert(cur[i + (k + 1)] == orig[j + (k + 1)]);
                    }
                    assert(cur.subrange(i + 1, cur.len() as int) =~= orig.subrange(j + 1, orig.len() as int));
                    idx = idx.push(j);
                    j = j + 1;
                }
                i = i + 1;
            }
        }
        proof {
            assert(orig.subrange(j, orig.len() as int).len() == 0);
            assert(self.entries@.subrange(0, i as int) =~= self.entries@);
            assert(orig.subrange(0, j) =~= orig);
            if spec_paths_unique(orig) {
                assert forall|a: int, b: int| 0 <= a < b < self.entries@.len() implies #[trigger] self.entries@[a].key@ != #[trigger] self.entries@[b].key@ by {
                    assert(idx[a] < idx[b]);
                    assert(orig[idx[a]].key@ != orig[idx[b]].key@);
                }
            }
        }
    }
}

/// The last entry for a path is the one the map holds for it.
proof fn lemma_last_occurrence(s: Seq<ManifestEntry>, j: int, k: Seq<char>)
    requires
        0 <= j < s.len(),
        s[j].key@ == k,
        forall|m: int| j < m < s.len() ==> #[trigger] s[m].key@ != k,
    ensures
        spec_entries_map(s).dom().contains(k),
        spec_entries_map(s)[k] == s[j].meta,
    decreases s.len(),
{
    if j < s.len() - 1 {
        lemma_last_occurrence(s.drop_last(), j, k);
    }
}

/// A path no entry has is not in the map.
proof fn lemma_absent(s: Seq<ManifestEntry>, k: Seq<char>)
    requires
        forall|m: int| 0 <= m < s.len() ==> #[trigger] s[m].key@ != k,
    ensures
        !spec_entries_map(s).dom().contains(k),
    decreases s.len(),
{
    if s.len() > 0 {
        lemma_absent(s.drop_last(), k);
    }
}

} // verus!

verus! {

impl Default for Manifest {
    /// The same as `Manifest::new`.
    fn default() -> (m: Self)
        ensures
            m.entries@.len() == 0,
            m.version == 1,
    {
        Manifest::new()
    }
}

} // verus!

verus! {

/// What a read gives back of a write: after `add_file(meta)`, the record
/// of `meta`'s path is `meta`, and every other path keeps its record.
pub proof fn law_manifest_add_then_get(before: Map<Seq<char>, FileMeta>, after: Map<Seq<char>, FileMeta>, meta: FileMeta, other: Seq<char>)
    requires
        after == before.insert(meta.path@, meta),
    ensures
        after.dom().contains(meta.path@),
        after[meta.path@] == meta,
        other != meta.path@ ==> (after.dom().contains(other) == before.dom().contains(other)
            && (before.dom().contains(other) ==> after[other] == before[other])),
{
}

/// After `remove_file(path)` the path has no record, and every other path
/// keeps its record.
pub proof fn law_manifest_remove_then_absent(before: Map<Seq<char>, FileMeta>, after: Map<Seq<char>, FileMeta>, path: Seq<char>, other: Seq<char>)
    requires
        after == before.remove(path),
    ensures
        !after.dom().contains(path),
        other != path ==> (after.dom().contains(other) == before.dom().contains(other)
            && (before.dom().contains(other) ==> after[other] == before[other])),
{
}

/// Adding a record and then removing its path leaves the other paths as
/// they were and the path itself without a record.
pub proof fn law_manifest_add_then_remove(m: Map<Seq<char>, FileMeta>, meta: FileMeta)
    ensures
        m.insert(meta.path@, meta).remove(meta.path@) == m.remove(meta.path@),
{
    assert(m.insert(meta.path@, meta).remove(meta.path@) =~= m.remove(meta.path@));
}

} // verus!
