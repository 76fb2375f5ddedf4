//! The store: where the file of each key lies, and how a put and a get of
//! it begin.

use vstd::prelude::*;
use vstd::string::StringExecFns;
use bytes::Bytes;
use crate::decimal::{decimal, decimal_value, push_decimal};
use crate::get::{GetOp, GetStage};
use crate::key::Key;
use crate::layout::{
    bucket_dir_of, bucket_of, component_at, data_path_of, lemma_bucket_component,
    lemma_data_paths_differ,
};
use crate::options::LocalFileKVStoreOptions;
use crate::put::{PutOp, PutStage};

verus! {

/// A store of values in files under one root directory. It holds its
/// configuration and nothing else, and never changes it.
pub struct LocalFileKVStore {
    options: LocalFileKVStoreOptions,
}

impl LocalFileKVStore {
    /// The configuration that the store was made with.
    pub closed spec fn options(&self) -> LocalFileKVStoreOptions {
        self.options
    }

    /// A store can place keys once it has at least one bucket.
    pub open spec fn usable(&self) -> bool {
        self.options().num_bucket >= 1
    }

    /// The bucket directory of `id` in this store.
    pub open spec fn bucket_dir_spec<K: Key>(&self, id: &K) -> Seq<char> {
        bucket_dir_of(
            self.options().root_path@,
            bucket_of(id.hash_value(), self.options().num_bucket),
        )
    }

    /// The file of `id` in this store.
    pub open spec fn data_path_spec<K: Key>(&self, id: &K) -> Seq<char> {
        data_path_of(
            self.options().root_path@,
            bucket_of(id.hash_value(), self.options().num_bucket),
            id.name(),
        )
    }

    /// Takes the configuration as it is; touches nothing on disk.
    pub fn new(options: LocalFileKVStoreOptions) -> (store: LocalFileKVStore)
        ensures
            store.options() == options,
    {
        LocalFileKVStore { options }
    }

    /// Whether the store has a bucket to place a key in.
    pub fn is_usable(&self) -> (usable: bool)
        ensures
            usable == self.usable(),
    {
        self.options.num_bucket >= 1
    }

    /// The directory that holds the files of `id`'s bucket.
    pub fn bucket_dir<K: Key>(&self, id: &K) -> (dir: String)
        requires
            self.usable(),
        ensures
            dir@ == self.bucket_dir_spec(id),
    {
        let bucket: u64 = id.short_hash() % self.options.num_bucket;
        let mut dir = self.options.root_path.clone();
        proof {
            reveal_strlit("/");
        }
        dir.append("/");
        push_decimal(&mut dir, bucket);
        assert(dir@ =~= self.bucket_dir_spec(id));
        dir
    }

    /// The file `filename` inside the directory `dir`.
    fn file_in(dir: &String, filename: &String) -> (path: String)
        ensures
            path@ == dir@ + seq!['/'] + filename@,
    {
        let mut path = dir.clone();
        proof {
            reveal_strlit("/");
        }
        path.append("/");
        path.append(filename.as_str());
        assert(path@ =~= dir@ + seq!['/'] + filename@);
        path
    }

    /// The path of the file that holds the value of `id`.
    pub fn data_path<K: Key>(&self, id: K) -> (path: String)
        requires
            self.usable(),
        ensures
            path@ == self.data_path_spec(&id),
    {
        let dir = self.bucket_dir(&id);
        let name = id.filename();
        Self::file_in(&dir, &name)
    }

    /// Begins to store `buf` under `id`: the put that comes back waits for
    /// the key's file to be created. Nothing has touched the disk yet.
    pub fn put<K: Key>(&self, id: K, buf: Bytes) -> (op: PutOp)
        requires
            self.usable(),
        ensures
            op.path@ == self.data_path_spec(&id),
            op.dir@ == self.bucket_dir_spec(&id),
            op.data == buf,
            op.stage == PutStage::Create,
    {
        let dir = self.bucket_dir(&id);
        let name = id.filename();
        let path = Self::file_in(&dir, &name);
        PutOp { path, dir, data: buf, stage: PutStage::Create }
    }

    /// Begins to read the value of `id`: the get that comes back waits for
    /// the key's file to be opened. Nothing has touched the disk yet.
    pub fn get<K: Key>(&self, id: K) -> (op: GetOp)
        requires
            self.usable(),
        ensures
            op.path@ == self.data_path_spec(&id),
            op.stage == GetStage::Open,
    {
        GetOp { path: self.data_path(id), stage: GetStage::Open }
    }

    /// The component of a key's path that follows the root is the decimal
    /// numeral of the key's hash modulo the number of buckets, and that
    /// number is a bucket of the store.
    pub proof fn lemma_path_names_bucket<K: Key>(&self, id: &K)
        requires
            self.usable(),
        ensures
            component_at(self.data_path_spec(id), self.options().root_path@.len() as int + 1)
                == decimal((id.hash_value() % self.options().num_bucket) as nat),
            decimal_value(
                component_at(self.data_path_spec(id), self.options().root_path@.len() as int + 1),
            ) == id.hash_value() % self.options().num_bucket,
            id.hash_value() % self.options().num_bucket < self.options().num_bucket,
    {
        lemma_bucket_component(
            self.options().root_path@,
            bucket_of(id.hash_value(), self.options().num_bucket),
            id.name(),
        );
    }

    /// The path of a key depends on nothing but the key's hash and file
    /// name: two keys that agree in both have one path, whenever asked.
    pub proof fn lemma_path_stable<K: Key, L: Key>(&self, a: &K, b: &L)
        requires
            a.hash_value() == b.hash_value(),
            a.name() == b.name(),
        ensures
            self.data_path_spec(a) == self.data_path_spec(b),
            self.bucket_dir_spec(a) == self.bucket_dir_spec(b),
    {
    }

    /// Two keys have the same file only if they have the same bucket and the
    /// same file name; so keys of one bucket with different file names lie
    /// side by side.
    pub proof fn lemma_keys_share_no_file<K: Key, L: Key>(&self, a: &K, b: &L)
        requires
            self.usable(),
        ensures
            self.data_path_spec(a) == self.data_path_spec(b) <==> a.hash_value()
                % self.options().num_bucket == b.hash_value() % self.options().num_bucket
                && a.name() == b.name(),
    {
        lemma_data_paths_differ(
            self.options().root_path@,
            bucket_of(a.hash_value(), self.options().num_bucket),
            a.name(),
            bucket_of(b.hash_value(), self.options().num_bucket),
            b.name(),
        );
    }

    /// A key's file lies directly in the key's bucket directory.
    pub proof fn lemma_file_in_bucket_dir<K: Key>(&self, id: &K)
        ensures
            self.data_path_spec(id) == self.bucket_dir_spec(id) + seq!['/'] + id.name(),
    {
    }
}

} // verus!
