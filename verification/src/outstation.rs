pub mod config;
pub mod control;
pub mod database;
pub mod deferred;
pub mod select;
pub mod session;
pub mod traits;
