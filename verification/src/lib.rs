pub mod checksum;
pub mod chunk;
pub mod frame;
pub mod hex;
pub mod locator;
pub mod session;
