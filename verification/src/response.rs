//! What a reply of the puzzle service means.

use vstd::prelude::*;

verus! {

/// The classified outcome of one request to the puzzle service.
#[derive(Debug, Clone, PartialEq, Eq)]
pub enum PuzzleResponse {
    /// Status 200: the puzzle input.
    Success(String),
    /// Status 404: the puzzle is not released, or the day or year is wrong.
    NotFound,
    /// Status 500, which the service answers to a stale session credential.
    InvalidCredential,
    /// Any other status, with the body for diagnosis.
    OtherHttpError(u16, String),
    /// No reply was received.
    TransportFailure(String),
}

pub open spec fn classify_spec(status: u16, body: String) -> PuzzleResponse {
    if status == 200 {
        PuzzleResponse::Success(body)
    } else if status == 404 {
        PuzzleResponse::NotFound
    } else if status == 500 {
        PuzzleResponse::InvalidCredential
    } else {
        PuzzleResponse::OtherHttpError(status, body)
    }
}

/// Classifies a reply by its status.
pub fn classify_response(status: u16, body: String) -> (r: PuzzleResponse)
    ensures
        r == classify_spec(status, body),
{
    if status == 200 {
        PuzzleResponse::Success(body)
    } else if status == 404 {
        PuzzleResponse::NotFound
    } else if status == 500 {
        PuzzleResponse::InvalidCredential
    } else {
        PuzzleResponse::OtherHttpError(status, body)
    }
}

/// The outcome of a request: the classified reply, a status and a body, or
/// the transport failure that prevented one.
pub fn get_puzzle_input(reply: Result<(u16, String), String>) -> (r: PuzzleResponse)
    ensures
        r == match reply {
            Ok(answer) => classify_spec(answer.0, answer.1),
            Err(failure) => PuzzleResponse::TransportFailure(failure),
        },
{
    match reply {
        Ok((status, body)) => classify_response(status, body),
        Err(failure) => PuzzleResponse::TransportFailure(failure),
    }
}

} // verus!
