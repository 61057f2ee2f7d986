//! Namespaced key-value storage: an in-memory store, and the cache and
//! decisions of a store that keeps each namespace in a JSON file.

pub mod raw_data;
pub mod in_mem;
pub mod fs;

pub use raw_data::{RawData, StorageError};
pub use in_mem::{InMemNamespace, InMemStorage};
pub use fs::{FsNamespace, FsStorage};


