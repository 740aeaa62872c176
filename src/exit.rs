use vstd::prelude::*;

use crate::resolve::CopyError;

verus! {

/// The exit status of every failed invocation.
pub const FAILURE_EXIT_CODE: i32 = -1;

/// The exit status of a successful invocation when no other is configured.
pub const DEFAULT_EXIT_CODE: i32 = 0;

pub open spec fn is_digit(c: char) -> bool {
    '0' <= c && c <= '9'
}

/// The number that a non-empty run of decimal digits spells.
pub open spec fn digits_value(d: Seq<char>) -> int
    decreases d.len(),
{
    if d.len() == 0 {
        0
    } else {
        digits_value(d.drop_last()) * 10 + (d.last() as int - '0' as int)
    }
}

/// The integer that `s` spells in decimal: an optional `+` or `-`, then one or
/// more ASCII digits and nothing else.
pub open spec fn decimal_value(s: Seq<char>) -> Option<int> {
    let signed = s.len() > 0 && (s[0] == '+' || s[0] == '-');
    let d = if signed {
        s.drop_first()
    } else {
        s
    };
    if d.len() > 0 && forall|k: int| 0 <= k < d.len() ==> is_digit(#[trigger] d[k]) {
        Some(
            if signed && s[0] == '-' {
                -digits_value(d)
            } else {
                digits_value(d)
            },
        )
    } else {
        None
    }
}

/// What reading `s` as an `i32` gives: its decimal value when that fits.
pub open spec fn parsed_i32(s: Seq<char>) -> Option<i32> {
    match decimal_value(s) {
        Some(v) => if i32::MIN <= v <= i32::MAX {
            Some(v as i32)
        } else {
            None
        },
        None => None,
    }
}

/// Relies on `<i32 as FromStr>::from_str` (`i32::from_str_radix` with radix
/// 10): it accepts an optional sign followed by at least one ASCII digit and
/// nothing else, and fails on values outside the range of `i32`.
#[verifier::external_body]
fn parse_i32(s: &str) -> (r: Option<i32>)
    ensures
        r == parsed_i32(s@),
{
    s.parse::<i32>().ok()
}

/// The exit status of a successful run, given the configured setting if any:
/// the setting when it reads as an `i32`, else the default.
pub open spec fn success_code(setting: Option<Seq<char>>) -> i32 {
    match setting {
        Some(s) => match parsed_i32(s) {
            Some(c) => c,
            None => DEFAULT_EXIT_CODE,
        },
        None => DEFAULT_EXIT_CODE,
    }
}

/// The exit status of an invocation: the configured success code (or the
/// default) after a success, and always the failure code after a failure. A
/// setting that does not read as an integer is ignored, not an error.
pub fn exit_code(outcome: &Result<(), CopyError>, setting: Option<&str>) -> (r: i32)
    ensures
        outcome is Ok ==> r == success_code(
            match setting {
                Some(s) => Some(s@),
                None => None,
            },
        ),
        outcome is Err ==> r == FAILURE_EXIT_CODE,
{
    match outcome {
        Err(_) => FAILURE_EXIT_CODE,
        Ok(()) => match setting {
            Some(s) => match parse_i32(s) {
                Some(c) => c,
                None => DEFAULT_EXIT_CODE,
            },
            None => DEFAULT_EXIT_CODE,
        },
    }
}

} // verus!
