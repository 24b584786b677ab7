//! The store-debugging view, as plain data.

pub mod gstore_debug;
