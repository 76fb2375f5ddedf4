//! Reading a value back: the requests a get makes of the file system, one at
//! a time, and what it decides on each answer.

use vstd::prelude::*;
use crate::error::{IoFailure, StoreError};

verus! {

/// The request that a get is waiting on.
#[derive(Clone, Copy, Debug, PartialEq, Eq)]
pub enum GetStage {
    /// Open the file at `path` for reading.
    Open,
    /// Ask the file system for the file's size.
    Metadata,
    /// Read exactly `len` bytes from offset zero.
    Read { len: usize },
}

impl GetStage {
    /// The most answers that a get at this stage still takes before it ends.
    pub open spec fn answers_left(self) -> nat {
        match self {
            GetStage::Open => 3,
            GetStage::Metadata => 2,
            GetStage::Read { .. } => 1,
        }
    }
}

/// A get under way.
#[derive(Debug, PartialEq, Eq)]
pub struct GetOp {
    /// The file of the key.
    pub path: String,
    /// The request that is pending.
    pub stage: GetStage,
}

/// The answer to a request of a get.
#[derive(Debug, PartialEq, Eq)]
pub enum GetReply {
    /// The file is open.
    Opened,
    /// The file's size in bytes.
    Size(u64),
    /// The bytes that were read.
    Data(Vec<u8>),
    /// The request was refused.
    Failed(IoFailure),
}

/// What a get does after an answer: it goes on with another request, or it
/// has ended.
#[derive(Debug, PartialEq, Eq)]
pub enum GetStep {
    Next(GetOp),
    Done(Result<Vec<u8>, StoreError>),
}

impl GetOp {
    /// The get after the answer `reply` to its pending request.
    ///
    /// A refusal ends the get with the error of the request that was refused;
    /// so does a size above `isize::MAX`, which no buffer can have, and a
    /// read that brings another number of bytes than the size announced. The
    /// value is what the read brought, and nothing else.
    pub open spec fn after(self, reply: GetReply) -> GetStep {
        match (self.stage, reply) {
            (GetStage::Open, GetReply::Opened) => GetStep::Next(
                GetOp { path: self.path, stage: GetStage::Metadata },
            ),
            (GetStage::Open, GetReply::Failed(failure)) => GetStep::Done(
                Err(StoreError::Open { path: self.path, detail: failure.detail }),
            ),
            (GetStage::Metadata, GetReply::Size(size)) => if size <= isize::MAX {
                GetStep::Next(GetOp { path: self.path, stage: GetStage::Read { len: size as usize } })
            } else {
                GetStep::Done(Err(StoreError::TooLarge { path: self.path, size }))
            },
            (GetStage::Metadata, GetReply::Failed(failure)) => GetStep::Done(
                Err(StoreError::Metadata { path: self.path, detail: failure.detail }),
            ),
            (GetStage::Read { len }, GetReply::Data(bytes)) => if bytes@.len() == len {
                GetStep::Done(Ok(bytes))
            } else {
                GetStep::Done(
                    Err(
                        StoreError::SizeMismatch {
                            path: self.path,
                            expected: len,
                            found: bytes@.len() as usize,
                        },
                    ),
                )
            },
            (GetStage::Read { len }, GetReply::Failed(failure)) => GetStep::Done(
                Err(StoreError::Read { path: self.path, detail: failure.detail }),
            ),
            _ => GetStep::Done(Err(StoreError::UnexpectedReply { path: self.path })),
        }
    }

    /// The get after a row of answers, each to the request that the one
    /// before it led to; answers that come after the end are not looked at.
    pub open spec fn run(self, replies: Seq<GetReply>) -> GetStep
        decreases replies.len(),
    {
        if replies.len() == 0 {
            GetStep::Next(self)
        } else {
            match self.after(replies[0]) {
                GetStep::Next(next) => next.run(replies.skip(1)),
                GetStep::Done(result) => GetStep::Done(result),
            }
        }
    }

    /// An answer that does not end a get brings it nearer to its end, leaves
    /// the file as it was, and asks for no more bytes than a buffer can
    /// hold.
    pub proof fn lemma_progress(self, reply: GetReply)
        ensures
            self.after(reply) matches GetStep::Next(next) ==> {
                &&& next.stage.answers_left() < self.stage.answers_left()
                &&& next.path == self.path
                &&& next.fits()
            },
    {
    }

    /// A get has ended once it has as many answers as its stage can take: a
    /// fresh one after three at most.
    pub proof fn lemma_ends(self, replies: Seq<GetReply>)
        requires
            replies.len() >= self.stage.answers_left(),
        ensures
            self.run(replies) is Done,
        decreases replies.len(),
    {
        match self.after(replies[0]) {
            GetStep::Next(next) => {
                next.lemma_ends(replies.skip(1));
            },
            GetStep::Done(_) => {},
        }
    }

    /// A get whose file cannot be opened fails, whatever the refusal says and
    /// whatever might be answered after it: a key that was never put yields
    /// an error, never a value, not even an empty one.
    pub proof fn lemma_unopened_fails(self, replies: Seq<GetReply>)
        requires
            self.stage == GetStage::Open,
            replies.len() >= 1,
            !(replies[0] is Opened),
        ensures
            self.run(replies) matches GetStep::Done(Err(_)),
    {
    }

    /// When a fresh get yields a value, and which: the file opens, its size
    /// fits a buffer, and the read brings exactly that many bytes; the value
    /// is then the bytes that were read. Nothing else yields a value.
    pub proof fn lemma_value(self, replies: Seq<GetReply>, value: Vec<u8>)
        requires
            self.stage == GetStage::Open,
        ensures
            self.run(replies) == GetStep::Done(Ok(value)) <==> {
                &&& replies.len() >= 3
                &&& replies[0] is Opened
                &&& replies[1] matches GetReply::Size(size)
                &&& size <= isize::MAX
                &&& replies[2] == GetReply::Data(value)
                &&& value@.len() == size
            },
    {
        reveal_with_fuel(GetOp::run, 4);
    }

    /// Whether the number of bytes to read, once it is known, is one that a
    /// buffer can have. Every get that `step` hands on is such a one.
    pub open spec fn fits(&self) -> bool {
        self.stage matches GetStage::Read { len } ==> len <= isize::MAX
    }

    /// The buffer for the read request: as many zero bytes as the file's size
    /// announced, and none before the size is known.
    pub open spec fn buffer_spec(&self) -> Seq<u8> {
        match self.stage {
            GetStage::Read { len } => Seq::new(len as nat, |i: int| 0u8),
            _ => Seq::empty(),
        }
    }

    /// A fresh buffer of exactly the size to read.
    pub fn buffer(&self) -> (buf: Vec<u8>)
        requires
            self.fits(),
        ensures
            buf@ == self.buffer_spec(),
    {
        match self.stage {
            GetStage::Read { len } => {
                let buf = vec![0u8; len];
                assert(buf@ =~= self.buffer_spec());
                buf
            },
            _ => Vec::new(),
        }
    }

    /// Takes the answer to the pending request and decides how the get goes
    /// on.
    pub fn step(self, reply: GetReply) -> (step: GetStep)
        ensures
            step == self.after(reply),
            step matches GetStep::Next(next) ==> next.fits(),
    {
        let GetOp { path, stage } = self;
        match stage {
            GetStage::Open => match reply {
                GetReply::Opened => GetStep::Next(GetOp { path, stage: GetStage::Metadata }),
                GetReply::Failed(failure) => GetStep::Done(
                    Err(StoreError::Open { path, detail: failure.detail }),
                ),
                _ => GetStep::Done(Err(StoreError::UnexpectedReply { path })),
            },
            GetStage::Metadata => match reply {
                GetReply::Size(size) => {
                    if size <= isize::MAX as u64 {
                        GetStep::Next(GetOp { path, stage: GetStage::Read { len: size as usize } })
                    } else {
                        GetStep::Done(Err(StoreError::TooLarge { path, size }))
                    }
                },
                GetReply::Failed(failure) => GetStep::Done(
                    Err(StoreError::Metadata { path, detail: failure.detail }),
                ),
                _ => GetStep::Done(Err(StoreError::UnexpectedReply { path })),
            },
            GetStage::Read { len } => match reply {
                GetReply::Data(bytes) => {
                    let found = bytes.len();
                    if found == len {
                        GetStep::Done(Ok(bytes))
                    } else {
                        GetStep::Done(Err(StoreError::SizeMismatch { path, expected: len, found }))
                    }
                },
                GetReply::Failed(failure) => GetStep::Done(
                    Err(StoreError::Read { path, detail: failure.detail }),
                ),
                _ => GetStep::Done(Err(StoreError::UnexpectedReply { path })),
            },
        }
    }
}

} // verus!
