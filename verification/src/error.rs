use vstd::prelude::*;

verus! {

/// Errors produced by the local request model.
#[derive(Debug)]
pub enum Error {
    /// The request was rejected locally before being sent.
    InvalidRequest { reason: String },
}

/// The reason carried by a failed check, or `None` when the check passed.
pub open spec fn failure(r: Result<(), Error>) -> Option<Seq<char>> {
    match r {
        Ok(_) => None,
        Err(Error::InvalidRequest { reason }) => Some(reason@),
    }
}

/// Runs two checks in order: the first failure wins.
pub open spec fn first_failure(a: Option<Seq<char>>, b: Option<Seq<char>>) -> Option<Seq<char>> {
    if a is Some {
        a
    } else {
        b
    }
}

/// Builds an `InvalidRequest` error with the given reason.
pub fn invalid_request(reason: String) -> (e: Error)
    ensures
        e == (Error::InvalidRequest { reason }),
{
    Error::InvalidRequest { reason }
}

/// Builds a failed check from a literal reason.
pub fn fail(reason: &str) -> (r: Result<(), Error>)
    ensures
        failure(r) == Some(reason@),
{
    Err(Error::InvalidRequest { reason: reason.to_owned() })
}

} // verus!
