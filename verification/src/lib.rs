//! A key-value store on the local file system: one file per key, spread over
//! numbered bucket directories under one root.
//!
//! A key is placed by its hash: its file is `<root>/<bucket>/<filename>`,
//! where the bucket is the hash modulo the number of buckets. The value is
//! the whole content of the file, from the first byte to the last.
//!
//! The store itself never touches the disk. A put or a get is a short
//! exchange: the operation names one request at a time (`stage`), the caller
//! performs it on the file system and hands the answer to `step`, which
//! decides what comes next. What is decided on each answer is proved here;
//! what the file system does is the caller's to perform.

pub mod decimal;
pub mod error;
pub mod get;
pub mod key;
pub mod layout;
pub mod options;
pub mod payload;
pub mod put;
pub mod store;
