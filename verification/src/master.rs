pub mod error;
pub mod restart;
