use vstd::prelude::*;
use vstd::string::*;

use crate::decimal::{int_text, int_to_text};
use crate::value::{i64_of, parse_i64};

verus! {

/// How an answer breaks a prompt's bounds.
#[derive(Debug, Clone, Copy, PartialEq, Eq, Structural)]
pub enum Violation {
    /// Text with fewer characters than the minimum.
    TooShort(i64),
    /// Text with more characters than the maximum.
    TooLong(i64),
    /// A number below the minimum.
    BelowMin(i64),
    /// A number above the maximum.
    AboveMax(i64),
    /// Text that does not read as a boolean.
    NotABoolean,
}

/// How `value` breaks the inclusive bounds `[min, max]`, where each is set.
pub open spec fn int_violation(min: Option<i64>, max: Option<i64>, value: i64) -> Option<Violation> {
    if min is Some && value < min->0 {
        Some(Violation::BelowMin(min->0))
    } else if max is Some && value > max->0 {
        Some(Violation::AboveMax(max->0))
    } else {
        None
    }
}

/// How a text of `len` characters breaks the bounds `[min, max]`; the minimum
/// is one character where none is set.
pub open spec fn text_violation(min: Option<i64>, max: Option<i64>, len: int) -> Option<Violation> {
    let lo: i64 = match min {
        Some(m) => m,
        None => 1,
    };
    if len < lo {
        Some(Violation::TooShort(lo))
    } else if max is Some && len > max->0 {
        Some(Violation::TooLong(max->0))
    } else {
        None
    }
}

/// Checks an integer answer against its bounds.
pub fn validate_int(min: Option<i64>, max: Option<i64>, value: i64) -> (r: Result<(), Violation>)
    ensures
        match int_violation(min, max, value) {
            Some(v) => r == Err::<(), Violation>(v),
            None => r is Ok,
        },
{
    if let Some(lo) = min {
        if value < lo {
            return Err(Violation::BelowMin(lo));
        }
    }
    if let Some(hi) = max {
        if value > hi {
            return Err(Violation::AboveMax(hi));
        }
    }
    Ok(())
}

/// Checks a text answer's length, counted in characters, against its bounds.
pub fn validate_text(min: Option<i64>, max: Option<i64>, text: &str) -> (r: Result<(), Violation>)
    ensures
        match text_violation(min, max, text@.len() as int) {
            Some(v) => r == Err::<(), Violation>(v),
            None => r is Ok,
        },
{
    let len = text.unicode_len();
    let lo: i64 = match min {
        Some(m) => m,
        None => 1,
    };
    if lo > 0 && (len as u64) < (lo as u64) {
        return Err(Violation::TooShort(lo));
    }
    if let Some(hi) = max {
        if hi < 0 || (len as u64) > (hi as u64) {
            return Err(Violation::TooLong(hi));
        }
    }
    Ok(())
}

/// Why text typed at an integer prompt is refused.
#[derive(Debug, Clone, Copy, PartialEq, Eq, Structural)]
pub enum IntInputError {
    /// The text is not a decimal integer.
    NotAnInt,
    /// The integer breaks the prompt's bounds.
    OutOfBounds(Violation),
}

/// Checks text typed at an integer prompt: it must read as an integer within
/// the bounds.
pub fn validate_int_input(min: Option<i64>, max: Option<i64>, input: &str) -> (r: Result<i64, IntInputError>)
    ensures
        match i64_of(input@) {
            None => r == Err::<i64, IntInputError>(IntInputError::NotAnInt),
            Some(v) => match int_violation(min, max, v) {
                None => r == Ok::<i64, IntInputError>(v),
                Some(x) => r == Err::<i64, IntInputError>(IntInputError::OutOfBounds(x)),
            },
        },
{
    match parse_i64(input) {
        None => Err(IntInputError::NotAnInt),
        Some(v) => match validate_int(min, max, v) {
            Ok(_) => Ok(v),
            Err(x) => Err(IntInputError::OutOfBounds(x)),
        },
    }
}

/// The words that explain a violation to the user.
pub open spec fn violation_text(v: Violation) -> Seq<char> {
    match v {
        Violation::TooShort(n) => "must have at least "@ + int_text(n as int) + " characters"@,
        Violation::TooLong(n) => "must have at most "@ + int_text(n as int) + " characters"@,
        Violation::BelowMin(n) => "must be ≥ "@ + int_text(n as int),
        Violation::AboveMax(n) => "must be ≤ "@ + int_text(n as int),
        Violation::NotABoolean => "must resemble a boolean"@,
    }
}

fn phrase(lead: &str, n: i64, tail: &str) -> (r: String)
    ensures
        r@ == lead@ + int_text(n as int) + tail@,
{
    let mut out = lead.to_owned();
    let digits = int_to_text(n);
    out.append(digits.as_str());
    out.append(tail);
    out
}

impl Violation {
    /// Explains the violation, as in "must be ≤ 120".
    pub fn message(&self) -> (r: String)
        ensures
            r@ == violation_text(*self),
    {
        match self {
            Violation::TooShort(n) => phrase("must have at least ", *n, " characters"),
            Violation::TooLong(n) => phrase("must have at most ", *n, " characters"),
            Violation::BelowMin(n) => {
                let r = phrase("must be ≥ ", *n, "");
                proof {
                    reveal_strlit("");
                }
                assert(r@ =~= violation_text(*self));
                r
            },
            Violation::AboveMax(n) => {
                let r = phrase("must be ≤ ", *n, "");
                proof {
                    reveal_strlit("");
                }
                assert(r@ =~= violation_text(*self));
                r
            },
            Violation::NotABoolean => "must resemble a boolean".to_owned(),
        }
    }
}

} // verus!
