//! Puzzle requests: the admitted years and days, and the address of an input.

use crate::text::{append_decimal, decimal};
use vstd::prelude::*;
use vstd::string::*;

verus! {

/// The first year for which puzzles exist.
pub const MIN_YEAR: u16 = 2015;

/// The last year for which puzzle inputs are requested.
pub const MAX_YEAR: u16 = 2023;

/// Why a pair of year and day is no puzzle request. The offending value is
/// carried along.
#[derive(Debug, Clone, Copy, PartialEq, Eq, Structural)]
pub enum RangeError {
    InvalidYear(u16),
    InvalidDay(u8),
}

/// Whether puzzle inputs are requested for `year`.
pub open spec fn year_in_range(year: u16) -> bool {
    MIN_YEAR <= year <= MAX_YEAR
}

/// Whether a puzzle is released on `day` of December.
pub open spec fn day_in_range(day: u8) -> bool {
    1 <= day <= 25
}

/// The range error of a pair of year and day, if it has one. The year is
/// judged first.
pub open spec fn range_error(year: u16, day: u8) -> Option<RangeError> {
    if !year_in_range(year) {
        Some(RangeError::InvalidYear(year))
    } else if !day_in_range(day) {
        Some(RangeError::InvalidDay(day))
    } else {
        None
    }
}

/// The address of the input of one puzzle.
pub open spec fn puzzle_url(year: u16, day: u8) -> Seq<char> {
    "https://adventofcode.com/"@ + decimal(year as nat) + "/day/"@ + decimal(day as nat)
        + "/input"@
}

/// The value of the cookie header that carries a session credential.
pub open spec fn session_cookie_spec(credential: Seq<char>) -> Seq<char> {
    "session="@ + credential
}

impl RangeError {
    /// The text of the error, which names the offending value.
    pub open spec fn message_spec(self) -> Seq<char> {
        match self {
            RangeError::InvalidYear(year) => "Invalid year: "@ + decimal(year as nat),
            RangeError::InvalidDay(day) => "Invalid day: "@ + decimal(day as nat),
        }
    }

    pub fn message(&self) -> (r: String)
        ensures
            r@ == self.message_spec(),
    {
        match self {
            RangeError::InvalidYear(year) => {
                let mut out = String::from_str("Invalid year: ");
                append_decimal(&mut out, *year);
                out
            },
            RangeError::InvalidDay(day) => {
                let mut out = String::from_str("Invalid day: ");
                append_decimal(&mut out, *day as u16);
                out
            },
        }
    }
}

/// A year and a day for which an input may be requested.
#[derive(Debug, Clone, Copy, PartialEq, Eq)]
pub struct PuzzleRequest {
    year: u16,
    day: u8,
}

impl PuzzleRequest {
    #[verifier::type_invariant]
    spec fn in_range(self) -> bool {
        year_in_range(self.year) && day_in_range(self.day)
    }

    pub closed spec fn year_spec(self) -> u16 {
        self.year
    }

    pub closed spec fn day_spec(self) -> u8 {
        self.day
    }

    pub fn year(&self) -> (y: u16)
        ensures
            y == self.year_spec(),
            year_in_range(y),
    {
        proof {
            use_type_invariant(self);
        }
        self.year
    }

    pub fn day(&self) -> (d: u8)
        ensures
            d == self.day_spec(),
            day_in_range(d),
    {
        proof {
            use_type_invariant(self);
        }
        self.day
    }

    /// The address from which the input of this puzzle is fetched.
    pub fn url(&self) -> (r: String)
        ensures
            r@ == puzzle_url(self.year_spec(), self.day_spec()),
    {
        let mut out = String::from_str("https://adventofcode.com/");
        append_decimal(&mut out, self.year);
        out.append("/day/");
        append_decimal(&mut out, self.day as u16);
        out.append("/input");
        out
    }
}

/// Admits a pair of year and day as a puzzle request, or says which of the
/// two is out of range.
pub fn validate(year: u16, day: u8) -> (r: Result<PuzzleRequest, RangeError>)
    ensures
        match range_error(year, day) {
            Some(e) => r == Err::<PuzzleRequest, RangeError>(e),
            None => r is Ok && r->Ok_0.year_spec() == year && r->Ok_0.day_spec() == day,
        },
{
    if year < MIN_YEAR || year > MAX_YEAR {
        Err(RangeError::InvalidYear(year))
    } else if day > 25 || day < 1 {
        Err(RangeError::InvalidDay(day))
    } else {
        Ok(PuzzleRequest { year, day })
    }
}

/// The address of the input of the puzzle of `day` in `year`, where the two
/// are in range.
pub fn build_puzzle_url(year: u16, day: u8) -> (r: Result<String, RangeError>)
    ensures
        match range_error(year, day) {
            Some(e) => r == Err::<String, RangeError>(e),
            None => r is Ok && r->Ok_0@ == puzzle_url(year, day),
        },
{
    match validate(year, day) {
        Ok(request) => Ok(request.url()),
        Err(e) => Err(e),
    }
}

/// The cookie header value that presents `credential` to the puzzle service.
pub fn session_cookie(credential: &str) -> (r: String)
    ensures
        r@ == session_cookie_spec(credential@),
{
    let mut out = String::from_str("session=");
    out.append(credential);
    out
}

} // verus!
