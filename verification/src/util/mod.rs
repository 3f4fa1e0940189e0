pub mod bytes;
pub mod clock;
pub mod digest;
pub mod number;
pub mod sorted;
pub mod text;
