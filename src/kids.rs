//! Sorting kids into nice and naughty from rows of comma-separated text.
use vstd::prelude::*;
use crate::text::{comma_from, decimal_u32, find_comma, parse_u32, trim, trimmed};

verus! {

/// Why a row does not describe a kid.
#[derive(Debug, Clone, Copy, PartialEq, Eq, Structural)]
pub enum ParseError {
    NoName,
    NoGoodDeeds,
    NoBadDeeds,
    InvalidGoodDeeds,
    InvalidBadDeeds,
}

/// The human-readable text of an error.
pub open spec fn error_message(e: ParseError) -> Seq<char> {
    match e {
        ParseError::NoName => "Name field is missing"@,
        ParseError::NoGoodDeeds => "Good deeds field is missing"@,
        ParseError::NoBadDeeds => "Bad deeds field is missing"@,
        ParseError::InvalidGoodDeeds => "Good deeds value is invalid"@,
        ParseError::InvalidBadDeeds => "Bad deeds value is invalid"@,
    }
}

impl ParseError {
    /// The human-readable text of this error.
    pub fn message(&self) -> (r: &'static str)
        ensures
            r@ == error_message(*self),
    {
        match self {
            ParseError::NoName => "Name field is missing",
            ParseError::NoGoodDeeds => "Good deeds field is missing",
            ParseError::NoBadDeeds => "Bad deeds field is missing",
            ParseError::InvalidGoodDeeds => "Good deeds value is invalid",
            ParseError::InvalidBadDeeds => "Bad deeds value is invalid",
        }
    }
}

/// A kid's standing: nice, with the good deeds that earned it, or naughty.
#[derive(Debug, Clone, Copy, PartialEq, Eq, Structural)]
pub enum Niceness {
    Nice(u32),
    Naughty,
}

/// A kid and their standing.
#[derive(Debug)]
pub struct Kid {
    pub name: String,
    pub niceness: Niceness,
}

/// The weight of one good deed.
pub const GOOD_WEIGHT: u64 = 1;

/// The weight of one bad deed.
pub const BAD_WEIGHT: u64 = 2;

/// A kid is nice when some deed was done and the weighted good deeds make up
/// at least three quarters of all weighted deeds.
pub open spec fn nice(good_deeds: u32, bad_deeds: u32) -> bool {
    let good = good_deeds * GOOD_WEIGHT;
    let bad = bad_deeds * BAD_WEIGHT;
    good + bad > 0 && 4 * good >= 3 * (good + bad)
}

/// The standing that a count of deeds earns.
pub open spec fn niceness_of(good_deeds: u32, bad_deeds: u32) -> Niceness {
    if nice(good_deeds, bad_deeds) {
        Niceness::Nice(good_deeds)
    } else {
        Niceness::Naughty
    }
}

/// What a row says, field by field: the name (the text before the first
/// comma) and the two deed counts (the next two fields). The first field
/// that is blank or, for a count, not a decimal `u32`, gives the error;
/// fields past the third are not read.
pub open spec fn parsed_row(row: Seq<char>) -> Result<(Seq<char>, u32, u32), ParseError> {
    let c0 = comma_from(row, 0);
    let name = row.subrange(0, c0);
    if trimmed(name).len() == 0 {
        Err(ParseError::NoName)
    } else if c0 >= row.len() {
        Err(ParseError::NoGoodDeeds)
    } else {
        let c1 = comma_from(row, c0 + 1);
        let good = row.subrange(c0 + 1, c1);
        if trimmed(good).len() == 0 {
            Err(ParseError::NoGoodDeeds)
        } else if decimal_u32(good) is None {
            Err(ParseError::InvalidGoodDeeds)
        } else if c1 >= row.len() {
            Err(ParseError::NoBadDeeds)
        } else {
            let c2 = comma_from(row, c1 + 1);
            let bad = row.subrange(c1 + 1, c2);
            if trimmed(bad).len() == 0 {
                Err(ParseError::NoBadDeeds)
            } else if decimal_u32(bad) is None {
                Err(ParseError::InvalidBadDeeds)
            } else {
                Ok((name, decimal_u32(good)->0, decimal_u32(bad)->0))
            }
        }
    }
}

impl Kid {
    /// A kid with the standing that their deeds earn.
    pub fn new(name: String, good_deeds: u32, bad_deeds: u32) -> (r: Kid)
        ensures
            r.name@ == name@,
            r.niceness == niceness_of(good_deeds, bad_deeds),
    {
        let niceness = if Self::is_nice(good_deeds, bad_deeds) {
            Niceness::Nice(good_deeds)
        } else {
            Niceness::Naughty
        };
        Kid { name, niceness }
    }

    /// Reads a kid from a row `name,good deeds,bad deeds`.
    pub fn parse_row(csv_row: &str) -> (r: Result<Kid, ParseError>)
        ensures
            r is Ok <==> parsed_row(csv_row@) is Ok,
            r matches Err(e) ==> parsed_row(csv_row@) == Err::<(Seq<char>, u32, u32), ParseError>(e),
            r matches Ok(kid) ==> parsed_row(csv_row@) matches Ok((name, good, bad)) && kid.name@
                == name && kid.niceness == niceness_of(good, bad),
    {
        let n: usize = csv_row.unicode_len();
        if n == 0 {
            return Err(ParseError::NoName);
        }
        let c0: usize = find_comma(csv_row, 0);
        let name_str = csv_row.substring_char(0, c0);
        if trim(name_str).is_empty() {
            return Err(ParseError::NoName);
        }
        if c0 >= n {
            return Err(ParseError::NoGoodDeeds);
        }
        let c1: usize = find_comma(csv_row, c0 + 1);
        let good_str = csv_row.substring_char(c0 + 1, c1);
        if trim(good_str).is_empty() {
            return Err(ParseError::NoGoodDeeds);
        }
        let good_deeds: u32 = match parse_u32(good_str) {
            Some(g) => g,
            None => return Err(ParseError::InvalidGoodDeeds),
        };
        if c1 >= n {
            return Err(ParseError::NoBadDeeds);
        }
        let c2: usize = find_comma(csv_row, c1 + 1);
        let bad_str = csv_row.substring_char(c1 + 1, c2);
        if trim(bad_str).is_empty() {
            return Err(ParseError::NoBadDeeds);
        }
        let bad_deeds: u32 = match parse_u32(bad_str) {
            Some(b) => b,
            None => return Err(ParseError::InvalidBadDeeds),
        };
        Ok(Kid::new(name_str.to_owned(), good_deeds, bad_deeds))
    }

    /// Whether a count of deeds makes a kid nice.
    pub fn is_nice(good_deeds: u32, bad_deeds: u32) -> (r: bool)
        ensures
            r == nice(good_deeds, bad_deeds),
    {
        if good_deeds == 0 && bad_deeds == 0 {
            return false;
        }
        let good: u64 = good_deeds as u64 * GOOD_WEIGHT;
        let bad: u64 = bad_deeds as u64 * BAD_WEIGHT;
        4 * good >= 3 * (good + bad)
    }
}

} // verus!
