use vstd::prelude::*;

use crate::prefetch::scanner::below_root;
use crate::prefetch::warmup::WarmupPlan;
use crate::util::sorted::strings_view;
use crate::util::text::{contains_str, spec_contains, spec_trim_end, starts_with, str_to_string};

verus! {

/// Picks the assets the desktop shell needs at boot and plans their warm-up.
pub struct BootAssetPrefetcher;

/// The boot asset patterns, relative to the boot root.
pub open spec fn spec_default_boot_assets() -> Seq<Seq<char>> {
    seq!["index.html"@, "assets/*.js"@, "assets/*.css"@, "wallpapers/*.png"@, "brand/*.png"@]
}

/// The glob pattern searched for a boot asset pattern under `root`.
pub open spec fn spec_boot_pattern(root: Seq<char>, pattern: Seq<char>) -> Seq<char> {
    if "/"@.is_prefix_of(pattern) {
        pattern
    } else {
        spec_trim_end(root, '/') + "/"@ + pattern
    }
}

/// Brand assets and the index page stay pinned in RAM.
pub open spec fn spec_is_pinned_asset(asset: Seq<char>) -> bool {
    spec_contains(asset, "brand/"@) || spec_contains(asset, "index.html"@)
}

impl BootAssetPrefetcher {
    pub fn new() -> (p: Self) {
        BootAssetPrefetcher
    }

    /// The boot asset patterns: the index page, scripts, style sheets,
    /// wallpapers and brand images.
    pub fn default_boot_assets() -> (r: Vec<String>)
        ensures
            strings_view(r@) == spec_default_boot_assets(),
    {
        let r = vec![
            str_to_string("index.html"),
            str_to_string("assets/*.js"),
            str_to_string("assets/*.css"),
            str_to_string("wallpapers/*.png"),
            str_to_string("brand/*.png"),
        ];
        assert(strings_view(r@) =~= spec_default_boot_assets());
        r
    }

    /// The glob pattern searched for each boot asset pattern under `root`.
    pub fn asset_patterns(root: &str) -> (r: Vec<String>)
        ensures
            r@.len() == spec_default_boot_assets().len(),
            forall|i: int| 0 <= i < r@.len() ==> #[trigger] r@[i]@ == spec_boot_pattern(root@, spec_default_boot_assets()[i]),
    {
        let patterns = Self::default_boot_assets();
        let mut r: Vec<String> = Vec::new();
        let mut i: usize = 0;
        while i < patterns.len()
            invariant
                i <= patterns@.len(),
                strings_view(patterns@) == spec_default_boot_assets(),
                r@.len() == i,
                forall|k: int| 0 <= k < i ==> #[trigger] r@[k]@ == spec_boot_pattern(root@, spec_default_boot_assets()[k]),
            decreases patterns@.len() - i,
        {
            let p = patterns[i].as_str();
            assert(p@ == spec_default_boot_assets()[i as int]);
            let full = if starts_with(p, "/") {
                str_to_string(p)
            } else {
                below_root(root, p)
            };
            r.push(full);
            i = i + 1;
        }
        r
    }

    /// Whether an asset stays pinned once warmed.
    pub fn is_pinned_asset(asset: &str) -> (r: bool)
        ensures
            r == spec_is_pinned_asset(asset@),
            r <==> (spec_contains(asset@, "brand/"@) || spec_contains(asset@, "index.html"@)),
    {
        contains_str(asset, "brand/") || contains_str(asset, "index.html")
    }

    /// Takes the next asset, of `size` bytes, into a plan whose
    /// `prefetched_bytes` counts what the plan has taken so far. When the
    /// asset does not fit under `max_bytes` it is taken in part, unpinned, up
    /// to the limit, and `false` says that planning ends; otherwise it is
    /// taken whole, pinned when it is a brand asset or the index page, and
    /// `true` is returned.
    pub fn take_asset(plan: &mut WarmupPlan, asset: &str, size: u64, max_bytes: u64) -> (more: bool)
        requires
            old(plan).prefetched_bytes < max_bytes,
            old(plan).total_bytes <= old(plan).prefetched_bytes,
        ensures
            more == (old(plan).prefetched_bytes + size <= max_bytes),
            strings_view(final(plan).files@) == strings_view(old(plan).files@).push(asset@),
            more ==> final(plan).prefetched_bytes == old(plan).prefetched_bytes + size,
            !more ==> final(plan).prefetched_bytes == max_bytes,
            final(plan).total_bytes == old(plan).total_bytes + (final(plan).prefetched_bytes - old(plan).prefetched_bytes),
            strings_view(final(plan).pinned@) == (if more && spec_is_pinned_asset(asset@) {
                strings_view(old(plan).pinned@).push(asset@)
            } else {
                strings_view(old(plan).pinned@)
            }),
            final(plan).total_bytes <= final(plan).prefetched_bytes,
            final(plan).prefetched_bytes <= max_bytes,
            final(plan).duration_ms == old(plan).duration_ms,
    {
        let accumulated = plan.prefetched_bytes;
        if size > max_bytes - accumulated {
            let remaining = max_bytes - accumulated;
            plan.add_file(asset, remaining, false);
            plan.prefetched_bytes = max_bytes;
            false
        } else {
            let is_pin = Self::is_pinned_asset(asset);
            plan.add_file(asset, size, is_pin);
            plan.prefetched_bytes = accumulated + size;
            true
        }
    }
}

} // verus!

verus! {

/// Exactly the assets whose path holds "brand/" or "index.html" are pinned.
pub proof fn law_pinned_assets(asset: Seq<char>)
    ensures
        spec_is_pinned_asset(asset) <==> (spec_contains(asset, "brand/"@) || spec_contains(asset, "index.html"@)),
{
}

/// An asset taken whole is added to the pinned list exactly when its path
/// holds "brand/" or "index.html"; one taken in part never is. `before` and
/// `after` are the pinned lists around `take_asset`, `more` its result.
pub proof fn law_take_asset_pins_brand_and_index(before: Seq<Seq<char>>, after: Seq<Seq<char>>, asset: Seq<char>, more: bool)
    requires
        after == (if more && spec_is_pinned_asset(asset) { before.push(asset) } else { before }),
    ensures
        more && (spec_contains(asset, "brand/"@) || spec_contains(asset, "index.html"@))
            ==> after == before.push(asset),
        !(more && (spec_contains(asset, "brand/"@) || spec_contains(asset, "index.html"@)))
            ==> after == before,
{
}

} // verus!
