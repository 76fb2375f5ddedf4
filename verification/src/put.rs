//! Writing a value: the requests a put makes of the file system, one at a
//! time, and what it decides on each answer.
//!
//! The file is created first, which empties a file that is already there, and
//! the value is then written whole from offset zero. So the file of a put that
//! succeeded holds the value and nothing more, also where it held a longer one
//! before. Where the creation finds no directory to create the file in, the
//! bucket directory is made and the creation tried once more, and never a
//! third time.

use vstd::prelude::*;
use bytes::Bytes;
use crate::error::{IoFailure, StoreError};
use crate::payload::{bytes_as_slice, bytes_contents};

verus! {

/// The request that a put is waiting on.
#[derive(Clone, Copy, Debug, PartialEq, Eq)]
pub enum PutStage {
    /// Create the file at `path`, emptying it if it exists.
    Create,
    /// Create the directory `dir` and every missing directory above it; a
    /// directory that is already there is no failure.
    MakeDir,
    /// Create the file at `path` once more, now that its directory exists.
    Recreate,
    /// Write the whole payload into the file, from offset zero on.
    Write,
}

impl PutStage {
    /// The most answers that a put at this stage still takes before it ends.
    pub open spec fn answers_left(self) -> nat {
        match self {
            PutStage::Create => 4,
            PutStage::MakeDir => 3,
            PutStage::Recreate => 2,
            PutStage::Write => 1,
        }
    }
}

/// A put under way.
#[derive(Debug, PartialEq, Eq)]
pub struct PutOp {
    /// The file of the key.
    pub path: String,
    /// The bucket directory of the key, in which `path` lies.
    pub dir: String,
    /// The value to store.
    pub data: Bytes,
    /// The request that is pending.
    pub stage: PutStage,
}

/// What a put does after an answer: it goes on with another request, or it
/// has ended.
#[derive(Debug, PartialEq, Eq)]
pub enum PutStep {
    Next(PutOp),
    Done(Result<(), StoreError>),
}

impl PutOp {
    /// The put after the answer `outcome` to its pending request.
    ///
    /// Only the first creation may be answered by making the directory, and
    /// only where the refusal says that something on the path is missing. Any
    /// other refusal ends the put with the error of the request that was
    /// refused.
    pub open spec fn after(self, outcome: Result<(), IoFailure>) -> PutStep {
        match (self.stage, outcome) {
            (PutStage::Create, Ok(_)) => PutStep::Next(PutOp { stage: PutStage::Write, ..self }),
            (PutStage::Create, Err(failure)) => if failure.not_found {
                PutStep::Next(PutOp { stage: PutStage::MakeDir, ..self })
            } else {
                PutStep::Done(
                    Err(StoreError::CreateFile { path: self.path, detail: failure.detail }),
                )
            },
            (PutStage::MakeDir, Ok(_)) => PutStep::Next(
                PutOp { stage: PutStage::Recreate, ..self },
            ),
            (PutStage::MakeDir, Err(failure)) => PutStep::Done(
                Err(StoreError::CreateDir { path: self.dir, detail: failure.detail }),
            ),
            (PutStage::Recreate, Ok(_)) => PutStep::Next(PutOp { stage: PutStage::Write, ..self }),
            (PutStage::Recreate, Err(failure)) => PutStep::Done(
                Err(StoreError::CreateFile { path: self.path, detail: failure.detail }),
            ),
            (PutStage::Write, Ok(_)) => PutStep::Done(Ok(())),
            (PutStage::Write, Err(failure)) => PutStep::Done(
                Err(StoreError::Write { path: self.path, detail: failure.detail }),
            ),
        }
    }

    /// The put after a row of answers, each to the request that the one
    /// before it led to; answers that come after the end are not looked at.
    pub open spec fn run(self, answers: Seq<Result<(), IoFailure>>) -> PutStep
        decreases answers.len(),
    {
        if answers.len() == 0 {
            PutStep::Next(self)
        } else {
            match self.after(answers[0]) {
                PutStep::Next(next) => next.run(answers.skip(1)),
                PutStep::Done(result) => PutStep::Done(result),
            }
        }
    }

    /// An answer that does not end a put brings it nearer to its end, and
    /// leaves the file, the directory and the value as they were.
    pub proof fn lemma_progress(self, outcome: Result<(), IoFailure>)
        ensures
            self.after(outcome) matches PutStep::Next(next) ==> {
                &&& next.stage.answers_left() < self.stage.answers_left()
                &&& next.path == self.path
                &&& next.dir == self.dir
                &&& next.data == self.data
            },
    {
    }

    /// A put has ended once it has as many answers as its stage can take: a
    /// fresh one after four at most, so the file is created at most twice
    /// and the directory at most once.
    pub proof fn lemma_ends(self, answers: Seq<Result<(), IoFailure>>)
        requires
            answers.len() >= self.stage.answers_left(),
        ensures
            self.run(answers) is Done,
        decreases answers.len(),
    {
        match self.after(answers[0]) {
            PutStep::Next(next) => {
                next.lemma_ends(answers.skip(1));
            },
            PutStep::Done(_) => {},
        }
    }

    /// When a fresh put succeeds: the file is created and written; or the
    /// first creation finds the directory missing, and the directory, the
    /// second creation and the write all succeed. Nothing else is a success.
    pub proof fn lemma_success(self, answers: Seq<Result<(), IoFailure>>)
        requires
            self.stage == PutStage::Create,
        ensures
            self.run(answers) == PutStep::Done(Ok(())) <==> {
                ||| answers.len() >= 2 && answers[0] is Ok && answers[1] is Ok
                ||| {
                    &&& answers.len() >= 4
                    &&& answers[0] matches Err(failure)
                    &&& failure.not_found
                    &&& answers[1] is Ok
                    &&& answers[2] is Ok
                    &&& answers[3] is Ok
                }
            },
    {
        reveal_with_fuel(PutOp::run, 5);
    }

    /// The bytes that the write request writes.
    pub open spec fn payload_spec(&self) -> Seq<u8> {
        bytes_contents(self.data)
    }

    /// The bytes to write at offset zero when the stage is `Write`.
    pub fn payload(&self) -> (bytes: &[u8])
        ensures
            bytes@ == self.payload_spec(),
    {
        bytes_as_slice(&self.data)
    }

    /// Takes the answer to the pending request and decides how the put goes
    /// on.
    pub fn step(self, outcome: Result<(), IoFailure>) -> (step: PutStep)
        ensures
            step == self.after(outcome),
    {
        let PutOp { path, dir, data, stage } = self;
        match stage {
            PutStage::Create => match outcome {
                Ok(_) => PutStep::Next(PutOp { path, dir, data, stage: PutStage::Write }),
                Err(failure) => if failure.not_found {
                    PutStep::Next(PutOp { path, dir, data, stage: PutStage::MakeDir })
                } else {
                    PutStep::Done(Err(StoreError::CreateFile { path, detail: failure.detail }))
                },
            },
            PutStage::MakeDir => match outcome {
                Ok(_) => PutStep::Next(PutOp { path, dir, data, stage: PutStage::Recreate }),
                Err(failure) => PutStep::Done(
                    Err(StoreError::CreateDir { path: dir, detail: failure.detail }),
                ),
            },
            PutStage::Recreate => match outcome {
                Ok(_) => PutStep::Next(PutOp { path, dir, data, stage: PutStage::Write }),
                Err(failure) => PutStep::Done(
                    Err(StoreError::CreateFile { path, detail: failure.detail }),
                ),
            },
            PutStage::Write => match outcome {
                Ok(_) => PutStep::Done(Ok(())),
                Err(failure) => PutStep::Done(
                    Err(StoreError::Write { path, detail: failure.detail }),
                ),
            },
        }
    }
}

} // verus!
