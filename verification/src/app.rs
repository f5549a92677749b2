pub mod control_field;
pub mod format;
pub mod function_code;
pub mod header;
pub mod iin;
pub mod measurement;
pub mod parse;
pub mod parser;
pub mod sequence;
pub mod timestamp;
pub mod variations;
