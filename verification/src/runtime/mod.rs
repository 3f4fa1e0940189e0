pub mod cli;
pub mod shutdown;

pub use cli::{Cli, Command};
pub use shutdown::ShutdownController;
