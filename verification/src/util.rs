pub mod bit;
pub mod clock;
pub mod hash;
pub mod time;
