pub mod boot_assets;
pub mod profile;
pub mod scanner;
pub mod warmup;

pub use boot_assets::BootAssetPrefetcher;
pub use profile::PrefetchProfile;
pub use scanner::PrefetchScanner;
pub use warmup::WarmupPlan;
