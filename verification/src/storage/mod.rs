pub mod buffer;
pub mod keys;
pub mod logger;
pub mod persist;
