//! What the file system is asked for, and the judgements on its answers.

use vstd::prelude::*;

use crate::error::{checked, invalid, invalid_error, Error};
use crate::model::Identity;

verus! {

/// What is known of an open file.
#[derive(Clone, Copy, Debug, PartialEq, Eq, Structural)]
pub struct FileFacts {
    pub is_file: bool,
    pub identity: Identity,
    pub links: u64,
    pub length: u64,
}

/// What is known of the staging file of a transfer.
#[derive(Debug)]
pub struct StageFacts {
    /// The file that now has the staging file's name.
    pub named: Result<FileFacts, Error>,
    /// The file that the transfer holds open.
    pub held: Result<FileFacts, Error>,
    /// The directory that the transfer holds open.
    pub parent: Result<Identity, Error>,
}

/// What is known of a staging file, a destination and the staged bytes when
/// publication has to be proved.
#[derive(Debug)]
pub struct EvidenceFacts {
    pub stage: Result<FileFacts, Error>,
    pub destination: Result<FileFacts, Error>,
    /// At most one byte more than the limit is read.
    pub bytes: Result<Vec<u8>, Error>,
}

/// How the removal of a staging file went.
#[derive(Debug)]
pub enum Removal {
    /// Removed, and the directory is synchronized.
    Removed,
    /// Not removed.
    NotUnlinked(Error),
    /// Removed; the directory could not be synchronized.
    NotSynced(Error),
}

/// The refusal of a staging file that is not the transfer's own.
pub open spec fn stage_error() -> Error<Seq<char>> {
    invalid_error("receiving stage was replaced or hard-linked"@)
}

/// The result of [`verify_live_stage`]: the name must lead to a regular file
/// which is the one held open, and it must have no other name.
pub open spec fn stage_check(f: StageFacts) -> Result<(), Error<Seq<char>>> {
    match f.named {
        Err(e) => Err(e@),
        Ok(named) => {
            if !named.is_file {
                Err(stage_error())
            } else {
                match f.held {
                    Err(e) => Err(e@),
                    Ok(held) => {
                        if named.identity != held.identity || held.links != 1 {
                            Err(stage_error())
                        } else {
                            Ok(())
                        }
                    },
                }
            }
        },
    }
}

/// Refuses a staging file that was replaced, removed or linked elsewhere.
pub fn verify_live_stage(facts: &StageFacts) -> (r: Result<(), Error>)
    ensures
        checked(r) == stage_check(*facts),
        r is Ok ==> facts.held is Ok,
{
    match &facts.named {
        Err(e) => Err(e.clone()),
        Ok(named) => {
            if !named.is_file {
                return Err(invalid("receiving stage was replaced or hard-linked"));
            }
            match &facts.held {
                Err(e) => Err(e.clone()),
                Ok(held) => {
                    if named.identity != held.identity || held.links != 1 {
                        Err(invalid("receiving stage was replaced or hard-linked"))
                    } else {
                        Ok(())
                    }
                },
            }
        },
    }
}

/// The result of [`record_stage`]: the name must lead to the regular file that
/// was accepted.
pub open spec fn retained_check(
    stage: Result<FileFacts, Error>,
    accepted: Identity,
) -> Result<(), Error<Seq<char>>> {
    match stage {
        Err(e) => Err(e@),
        Ok(file) => {
            if !file.is_file || file.identity != accepted {
                Err(invalid_error("staging evidence was replaced"@))
            } else {
                Ok(())
            }
        },
    }
}

/// Refuses a file that is not the staging file that was accepted.
pub fn record_stage(stage: &Result<FileFacts, Error>, accepted: Identity) -> (r: Result<
    (),
    Error,
>)
    ensures
        checked(r) == retained_check(*stage, accepted),
        r is Ok ==> *stage is Ok,
{
    match stage {
        Err(e) => Err(e.clone()),
        Ok(file) => {
            if !file.is_file || file.identity != accepted {
                Err(invalid("staging evidence was replaced"))
            } else {
                Ok(())
            }
        },
    }
}

/// The result of [`read_bounded`].
pub open spec fn bounded(
    file: Result<FileFacts, Error>,
    bytes: Result<Vec<u8>, Error>,
    limit: u64,
) -> Result<Seq<u8>, Error<Seq<char>>> {
    match file {
        Err(e) => Err(e@),
        Ok(file) => {
            if !file.is_file || file.length > limit {
                Err(invalid_error("file is not regular or exceeds limit"@))
            } else {
                match bytes {
                    Err(e) => Err(e@),
                    Ok(bytes) => {
                        if bytes@.len() > limit {
                            Err(invalid_error("file exceeds limit"@))
                        } else {
                            Ok(bytes@)
                        }
                    },
                }
            }
        },
    }
}

/// The bytes that were read from a file, unless it is not regular or is longer
/// than a limit.
pub fn read_bounded<'a>(
    file: &Result<FileFacts, Error>,
    bytes: &'a Result<Vec<u8>, Error>,
    limit: u64,
) -> (r: Result<&'a Vec<u8>, Error>)
    ensures
        (match r {
            Ok(v) => Ok(v@),
            Err(e) => Err(e@),
        }) == bounded(*file, *bytes, limit),
{
    match file {
        Err(e) => Err(e.clone()),
        Ok(file) => {
            if !file.is_file || file.length > limit {
                return Err(invalid("file is not regular or exceeds limit"));
            }
            match bytes {
                Err(e) => Err(e.clone()),
                Ok(bytes) => {
                    if bytes.len() as u64 > limit {
                        Err(invalid("file exceeds limit"))
                    } else {
                        Ok(bytes)
                    }
                },
            }
        },
    }
}

} // verus!
