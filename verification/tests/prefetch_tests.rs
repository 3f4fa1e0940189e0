use volt_usb_manager::prefetch::boot_assets::BootAssetPrefetcher;
use volt_usb_manager::prefetch::profile::PrefetchProfile;
use volt_usb_manager::prefetch::scanner::PrefetchScanner;
use volt_usb_manager::prefetch::warmup::WarmupPlan;

#[test]
fn test_new_profile() {
    let profile = PrefetchProfile::new("*.js", 5);
    assert_eq!(profile.path_pattern, "*.js");
    assert_eq!(profile.priority, 5);
    assert_eq!(profile.max_size_kb, 10240);
    assert!(!profile.pin);
    assert!(profile.compression);
}

#[test]
fn test_custom_max_size() {
    let mut profile = PrefetchProfile::new("*.bin", 3);
    profile.max_size_kb = 500;
    assert_eq!(profile.max_size_kb, 500);
}

#[test]
fn test_matches_glob() {
    let profile = PrefetchProfile::new("*.js", 1);
    assert!(profile.matches("/path/to/app.js"));
    assert!(profile.matches("app.js"));
    assert!(!profile.matches("app.ts"));
    assert!(!profile.matches("app.jsx"));
}

#[test]
fn test_matches_directory_pattern() {
    let profile = PrefetchProfile::new("/opt/volt/*/index.html", 10);
    assert!(profile.matches("/opt/volt/desktop/index.html"));
    assert!(profile.matches("/opt/volt/mobile/index.html"));
    assert!(!profile.matches("/opt/volt/desktop/other.html"));
}

#[test]
fn test_matches_no_wildcard() {
    let profile = PrefetchProfile::new("exact.txt", 1);
    assert!(profile.matches("exact.txt"));
    assert!(!profile.matches("notexact.txt"));
}

#[test]
fn profile_invalid_pattern_falls_back_to_containment() {
    // "***" is not a glob pattern; without its stars it is empty text.
    let profile = PrefetchProfile::new("a***b", 1);
    assert!(profile.matches("xxabyy"));
    assert!(!profile.matches("a-b"));
    assert!(PrefetchProfile::match_with("[ab", "x[ab", None));
    assert!(!PrefetchProfile::match_with("[ab", "x[ab", Some(false)));
}

#[test]
fn test_new_plan() {
    let plan = WarmupPlan::new();
    assert!(plan.files.is_empty());
    assert_eq!(plan.total_bytes, 0);
    assert_eq!(plan.prefetched_bytes, 0);
    assert!(plan.pinned.is_empty());
    assert_eq!(plan.duration_ms, 0);
}

#[test]
fn warmup_test_add_file() {
    let mut plan = WarmupPlan::new();
    plan.add_file("/boot/a.js", 1024, false);
    assert_eq!(plan.files.len(), 1);
    assert_eq!(plan.total_bytes, 1024);
    assert!(plan.pinned.is_empty());
}

#[test]
fn test_add_pinned_file() {
    let mut plan = WarmupPlan::new();
    plan.add_file("/brand/logo.png", 2048, true);
    assert_eq!(plan.pinned.len(), 1);
    assert_eq!(plan.pinned[0], "/brand/logo.png");
}

#[test]
fn test_is_complete() {
    let mut plan = WarmupPlan::new();
    plan.add_file("/a", 100, false);
    assert!(!plan.is_complete());
    plan.prefetched_bytes = 100;
    assert!(plan.is_complete());
}

#[test]
fn test_multiple_files() {
    let mut plan = WarmupPlan::new();
    plan.add_file("/a.js", 100, false);
    plan.add_file("/b.css", 200, true);
    plan.add_file("/c.png", 300, true);
    assert_eq!(plan.files.len(), 3);
    assert_eq!(plan.total_bytes, 600);
    assert_eq!(plan.pinned.len(), 2);
}

#[test]
fn test_default_boot_assets() {
    let assets = BootAssetPrefetcher::default_boot_assets();
    assert_eq!(assets.len(), 5);
    assert!(assets.contains(&"index.html".to_string()));
    assert!(assets.contains(&"assets/*.js".to_string()));
    assert!(assets.contains(&"brand/*.png".to_string()));
}

#[test]
fn boot_asset_patterns_sit_below_root() {
    let patterns = BootAssetPrefetcher::asset_patterns("/boot/");
    assert_eq!(patterns[0], "/boot/index.html");
    assert_eq!(patterns[4], "/boot/brand/*.png");
}

#[test]
fn boot_take_asset_pins_brand_and_stops_at_limit() {
    let mut plan = WarmupPlan::new();
    assert!(BootAssetPrefetcher::take_asset(&mut plan, "/r/brand/logo.png", 3, 10));
    assert_eq!(plan.pinned, vec!["/r/brand/logo.png".to_string()]);
    assert!(BootAssetPrefetcher::take_asset(&mut plan, "/r/assets/app.js", 4, 10));
    assert_eq!(plan.pinned.len(), 1);
    assert!(!BootAssetPrefetcher::take_asset(&mut plan, "/r/index.html", 5, 10));
    // The last asset is taken in part, unpinned, up to the limit.
    assert_eq!(plan.prefetched_bytes, 10);
    assert_eq!(plan.total_bytes, 10);
    assert_eq!(plan.files.len(), 3);
    assert_eq!(plan.pinned.len(), 1);
}

#[test]
fn boot_prefetch_max_bytes_one() {
    let mut plan = WarmupPlan::new();
    assert!(!BootAssetPrefetcher::take_asset(&mut plan, "/r/index.html", 13, 1));
    assert!(plan.prefetched_bytes <= 1);
}

#[test]
fn scanner_patterns_and_merge() {
    let profiles = vec![PrefetchProfile::new("*.js", 1), PrefetchProfile::new("/abs/*.css", 1)];
    let patterns = PrefetchScanner::scan_patterns("/root//", &profiles);
    assert_eq!(patterns, vec!["/root/*.js".to_string(), "/abs/*.css".to_string()]);
    assert_eq!(PrefetchScanner::full_pattern("/root", "/root/x/*.js"), "/root/x/*.js");
    let found = vec![
        vec!["/r/b.js".to_string(), "/r/a.js".to_string()],
        vec!["/r/a.js".to_string(), "/r/c.css".to_string()],
    ];
    let merged = PrefetchScanner::merge_results(&found);
    assert_eq!(merged, vec!["/r/a.js".to_string(), "/r/b.js".to_string(), "/r/c.css".to_string()]);
}
