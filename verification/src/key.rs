//! What the store asks of a key.

use vstd::prelude::*;

verus! {

/// A key of the store. The store never looks inside a key: it places the
/// value by the key's hash and names the file by the key's file name.
///
/// Both are functions of the key alone, which is what the two spec functions
/// say: whenever and wherever they are asked, `short_hash` and `filename`
/// answer with `hash_value` and `name`.
pub trait Key {
    /// The hash that decides the bucket.
    spec fn hash_value(&self) -> u64;

    /// The name of the key's file inside its bucket.
    spec fn name(&self) -> Seq<char>;

    fn short_hash(&self) -> (hash: u64)
        ensures
            hash == self.hash_value(),
    ;

    fn filename(&self) -> (name: String)
        ensures
            name@ == self.name(),
    ;
}

/// A key given by its two derived values: the plainest key there is, and the
/// way to hand the store a key of any other kind.
pub struct PlainKey {
    pub hash: u64,
    pub filename: String,
}

impl Key for PlainKey {
    open spec fn hash_value(&self) -> u64 {
        self.hash
    }

    open spec fn name(&self) -> Seq<char> {
        self.filename@
    }

    fn short_hash(&self) -> (hash: u64) {
        self.hash
    }

    fn filename(&self) -> (name: String) {
        self.filename.clone()
    }
}

} // verus!
