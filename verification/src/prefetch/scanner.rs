use vstd::prelude::*;

use crate::prefetch::profile::PrefetchProfile;
use crate::util::sorted::{sorted_unique, spec_strictly_sorted, strings_view};
use crate::util::text::{concat_str, spec_trim_end, starts_with, str_to_string, trim_end_char};

verus! {

broadcast use vstd::seq_lib::group_seq_properties;

/// Finds the files that prefetch profiles select under a root directory.
pub struct PrefetchScanner;

/// The glob pattern searched for a profile's pattern under `root`: an
/// absolute pattern, or one that already begins with the root, as it is;
/// any other below the root (without the root's trailing '/').
pub open spec fn spec_scan_pattern(root: Seq<char>, pattern: Seq<char>) -> Seq<char> {
    if "/"@.is_prefix_of(pattern) || root.is_prefix_of(pattern) {
        pattern
    } else {
        spec_trim_end(root, '/') + "/"@ + pattern
    }
}

/// All texts of the lists, list after list.
pub open spec fn spec_flat(lists: Seq<Vec<String>>) -> Seq<Seq<char>>
    decreases lists.len(),
{
    if lists.len() == 0 {
        Seq::empty()
    } else {
        spec_flat(lists.drop_last()) + strings_view(lists.last()@)
    }
}

/// `root` + "/" + `pattern`, the root without its trailing '/'.
pub fn below_root(root: &str, pattern: &str) -> (r: String)
    ensures
        r@ == spec_trim_end(root@, '/') + "/"@ + pattern@,
{
    let base = trim_end_char(root, '/');
    let with_slash = concat_str(base.as_str(), "/");
    concat_str(with_slash.as_str(), pattern)
}

/// Every text of every list, in order.
pub fn concat_lists(lists: &Vec<Vec<String>>) -> (r: Vec<String>)
    ensures
        strings_view(r@) == spec_flat(lists@),
{
    let mut all: Vec<String> = Vec::new();
    let mut k: usize = 0;
    while k < lists.len()
        invariant
            k <= lists@.len(),
            strings_view(all@) == spec_flat(lists@.subrange(0, k as int)),
        decreases lists@.len() - k,
    {
        let list = &lists[k];
        let ghost before = strings_view(all@);
        let mut j: usize = 0;
        while j < list.len()
            invariant
                j <= list@.len(),
                strings_view(all@) == before + strings_view(list@.subrange(0, j as int)),
            decreases list@.len() - j,
        {
            let ghost prev = all@;
            let item = str_to_string(list[j].as_str());
            all.push(item);
            assert(strings_view(all@) =~= strings_view(prev).push(list@[j as int]@));
            assert(strings_view(list@.subrange(0, j + 1)) =~= strings_view(list@.subrange(0, j as int)).push(list@[j as int]@));
            j = j + 1;
            assert(strings_view(all@) =~= before + strings_view(list@.subrange(0, j as int)));
        }
        assert(list@.subrange(0, list@.len() as int) =~= list@);
        assert(lists@.subrange(0, k + 1).drop_last() =~= lists@.subrange(0, k as int));
        k = k + 1;
    }
    assert(lists@.subrange(0, lists@.len() as int) =~= lists@);
    all
}

impl PrefetchScanner {
    pub fn new() -> (s: Self) {
        PrefetchScanner
    }

    /// The glob pattern searched for `pattern` under `root`.
    pub fn full_pattern(root: &str, pattern: &str) -> (r: String)
        ensures
            r@ == spec_scan_pattern(root@, pattern@),
    {
        if starts_with(pattern, "/") || starts_with(pattern, root) {
            str_to_string(pattern)
        } else {
            below_root(root, pattern)
        }
    }

    /// The glob pattern searched for each profile, in the profiles' order.
    pub fn scan_patterns(root: &str, profiles: &[PrefetchProfile]) -> (r: Vec<String>)
        ensures
            r@.len() == profiles@.len(),
            forall|i: int| 0 <= i < profiles@.len() ==> #[trigger] r@[i]@ == spec_scan_pattern(root@, profiles@[i].path_pattern@),
    {
        let mut r: Vec<String> = Vec::new();
        let mut i: usize = 0;
        while i < profiles.len()
            invariant
                i <= profiles@.len(),
                r@.len() == i,
                forall|k: int| 0 <= k < i ==> #[trigger] r@[k]@ == spec_scan_pattern(root@, profiles@[k].path_pattern@),
            decreases profiles@.len() - i,
        {
            r.push(Self::full_pattern(root, profiles[i].path_pattern.as_str()));
            i = i + 1;
        }
        r
    }

    /// The files found for all patterns, sorted, each once.
    pub fn merge_results(found: &Vec<Vec<String>>) -> (r: Vec<String>)
        ensures
            spec_strictly_sorted(strings_view(r@)),
            forall|t: Seq<char>| strings_view(r@).contains(t) <==> spec_flat(found@).contains(t),
    {
        let all = concat_lists(found);
        sorted_unique(all)
    }
}

} // verus!
