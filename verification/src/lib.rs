pub mod app;
pub mod link;
pub mod master;
pub mod outstation;
pub mod transport;
pub mod util;
