//! How an operation of the store fails, and what the file system answers.

use vstd::prelude::*;
use vstd::string::StringExecFns;
use crate::decimal::{decimal, push_decimal};

verus! {

/// A refusal by the file system, as the caller that did the work reports it.
#[derive(Debug, PartialEq, Eq)]
pub struct IoFailure {
    /// Whether the refusal says that the path, or a directory on the way to
    /// it, does not exist.
    pub not_found: bool,
    /// The operating system's words.
    pub detail: String,
}

/// Why a put or a get ended without success. Every variant names the path
/// that was worked on; those that report a refusal by the file system carry
/// its words.
#[derive(Debug, PartialEq, Eq)]
pub enum StoreError {
    /// The file could not be created.
    CreateFile { path: String, detail: String },
    /// The bucket directory could not be created.
    CreateDir { path: String, detail: String },
    /// The value could not be written.
    Write { path: String, detail: String },
    /// The file could not be opened; a key that was never put ends here.
    Open { path: String, detail: String },
    /// The file's size could not be learned.
    Metadata { path: String, detail: String },
    /// The file could not be read.
    Read { path: String, detail: String },
    /// The file is larger than a buffer in memory can be: its size is above
    /// `isize::MAX`.
    TooLarge { path: String, size: u64 },
    /// The bytes read are not as many as the file's size announced.
    SizeMismatch { path: String, expected: usize, found: usize },
    /// The reply does not answer the request that was pending.
    UnexpectedReply { path: String },
}

impl StoreError {
    /// The path that the failed request worked on.
    pub open spec fn path_spec(&self) -> Seq<char> {
        match self {
            StoreError::CreateFile { path, .. } => path@,
            StoreError::CreateDir { path, .. } => path@,
            StoreError::Write { path, .. } => path@,
            StoreError::Open { path, .. } => path@,
            StoreError::Metadata { path, .. } => path@,
            StoreError::Read { path, .. } => path@,
            StoreError::TooLarge { path, .. } => path@,
            StoreError::SizeMismatch { path, .. } => path@,
            StoreError::UnexpectedReply { path } => path@,
        }
    }

    /// What went wrong, without the path: the operating system's words after
    /// the name of the request, or the numbers that did not agree.
    pub open spec fn reason_spec(&self) -> Seq<char> {
        match self {
            StoreError::CreateFile { detail, .. } => "cannot create file: "@ + detail@,
            StoreError::CreateDir { detail, .. } => "cannot create directory: "@ + detail@,
            StoreError::Write { detail, .. } => "cannot write: "@ + detail@,
            StoreError::Open { detail, .. } => "cannot open: "@ + detail@,
            StoreError::Metadata { detail, .. } => "cannot read size: "@ + detail@,
            StoreError::Read { detail, .. } => "cannot read: "@ + detail@,
            StoreError::TooLarge { size, .. } => "too large for memory, bytes: "@ + decimal(
                *size as nat,
            ),
            StoreError::SizeMismatch { expected, found, .. } => "bytes expected: "@ + decimal(
                *expected as nat,
            ) + ", bytes read: "@ + decimal(*found as nat),
            StoreError::UnexpectedReply { .. } => "reply does not answer the request"@,
        }
    }

    /// The whole message: the path, a colon and a space, the reason.
    pub open spec fn message_spec(&self) -> Seq<char> {
        self.path_spec() + ": "@ + self.reason_spec()
    }

    /// The path that the failed request worked on.
    pub fn path(&self) -> (path: &String)
        ensures
            path@ == self.path_spec(),
    {
        match self {
            StoreError::CreateFile { path, .. } => path,
            StoreError::CreateDir { path, .. } => path,
            StoreError::Write { path, .. } => path,
            StoreError::Open { path, .. } => path,
            StoreError::Metadata { path, .. } => path,
            StoreError::Read { path, .. } => path,
            StoreError::TooLarge { path, .. } => path,
            StoreError::SizeMismatch { path, .. } => path,
            StoreError::UnexpectedReply { path } => path,
        }
    }

    /// The error in one line, for a person to read.
    pub fn message(&self) -> (text: String)
        ensures
            text@ == self.message_spec(),
    {
        let mut text = self.path().clone();
        text.append(": ");
        match self {
            StoreError::CreateFile { detail, .. } => {
                text.append("cannot create file: ");
                text.append(detail.as_str());
            },
            StoreError::CreateDir { detail, .. } => {
                text.append("cannot create directory: ");
                text.append(detail.as_str());
            },
            StoreError::Write { detail, .. } => {
                text.append("cannot write: ");
                text.append(detail.as_str());
            },
            StoreError::Open { detail, .. } => {
                text.append("cannot open: ");
                text.append(detail.as_str());
            },
            StoreError::Metadata { detail, .. } => {
                text.append("cannot read size: ");
                text.append(detail.as_str());
            },
            StoreError::Read { detail, .. } => {
                text.append("cannot read: ");
                text.append(detail.as_str());
            },
            StoreError::TooLarge { size, .. } => {
                text.append("too large for memory, bytes: ");
                push_decimal(&mut text, *size);
            },
            StoreError::SizeMismatch { expected, found, .. } => {
                text.append("bytes expected: ");
                push_decimal(&mut text, *expected as u64);
                text.append(", bytes read: ");
                push_decimal(&mut text, *found as u64);
            },
            StoreError::UnexpectedReply { .. } => {
                text.append("reply does not answer the request");
            },
        }
        assert(text@ =~= self.message_spec());
        text
    }
}

} // verus!
