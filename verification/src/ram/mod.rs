pub mod allocation;
pub mod pressure;
pub mod quota;
pub mod ram_client;
pub mod volt_ram_client;

pub use self::ram_client::RamClient;
