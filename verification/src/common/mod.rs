pub mod error;
pub mod result;
pub mod state;
