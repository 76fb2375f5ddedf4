//! Configuration of a local file store.

use vstd::prelude::*;

verus! {

/// Where a store keeps its files and over how many buckets it spreads them.
pub struct LocalFileKVStoreOptions {
    /// The directory under which every bucket directory lies.
    pub root_path: String,
    /// The number of buckets; a usable store has at least one.
    pub num_bucket: u64,
}

} // verus!
