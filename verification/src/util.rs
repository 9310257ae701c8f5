//! Utilities: buffers that know their exact length, network interfaces, and their errors.
pub mod error;
pub mod exact_size_buf;
pub mod interface;
