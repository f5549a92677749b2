pub mod address;
pub mod crc;
pub mod format;
pub mod header;
pub mod parser;
pub mod reader;
