//! Reading the optional line count from its textual setting.
use vstd::prelude::*;
use crate::pipeline::{ConfigError, DEFAULT_MAX_ACTIVITIES};

verus! {

/// Whether `c` is an ASCII decimal digit.
pub open spec fn is_digit(c: char) -> bool {
    '0' <= c && c <= '9'
}

/// Whether `s` is a non-empty run of decimal digits.
pub open spec fn is_decimal(s: Seq<char>) -> bool {
    s.len() > 0 && forall|i: int| 0 <= i < s.len() ==> is_digit(#[trigger] s[i])
}

/// The number that the digits of `s` write in base ten.
pub open spec fn decimal_value(s: Seq<char>) -> nat
    decreases s.len(),
{
    if s.len() == 0 {
        0
    } else {
        (decimal_value(s.drop_last()) * 10 + (s.last() as nat - '0' as nat)) as nat
    }
}

/// Parses `text` as a decimal number of type `usize`: digits only, at least
/// one, and no larger than `usize::MAX`.
pub fn parse_count(text: &str) -> (r: Option<usize>)
    ensures
        match r {
            Some(n) => is_decimal(text@) && decimal_value(text@) == n,
            None => !(is_decimal(text@) && decimal_value(text@) <= usize::MAX),
        },
{
    let len = text.unicode_len();
    if len == 0 {
        return None;
    }
    let mut acc: usize = 0;
    let mut too_large = false;
    let mut i: usize = 0;
    while i < len
        invariant
            len == text@.len(),
            0 <= i <= len,
            forall|k: int| 0 <= k < i ==> is_digit(#[trigger] text@[k]),
            !too_large ==> acc == decimal_value(text@.take(i as int)),
            too_large ==> decimal_value(text@.take(i as int)) > usize::MAX,
        decreases len - i,
    {
        let c = text.get_char(i);
        proof {
            assert(text@.take(i + 1).drop_last() == text@.take(i as int));
            assert(text@.take(i + 1).last() == c);
        }
        if c < '0' || c > '9' {
            return None;
        }
        let d = (c as u32 - '0' as u32) as usize;
        if !too_large {
            if acc > (usize::MAX - d) / 10 {
                assert(acc * 10 + d > usize::MAX) by (nonlinear_arith)
                    requires
                        acc > (usize::MAX - d) / 10,
                        d <= 9,
                ;
                too_large = true;
            } else {
                assert(acc * 10 + d <= usize::MAX) by (nonlinear_arith)
                    requires
                        acc <= (usize::MAX - d) / 10,
                        d <= 9,
                ;
                acc = acc * 10 + d;
            }
        }
        i += 1;
    }
    proof {
        assert(text@.take(len as int) == text@);
    }
    if too_large {
        None
    } else {
        Some(acc)
    }
}

/// Reads the number of lines to show from its setting: the default where
/// it is unset, `ConfigMissing` where it is not a decimal that fits.
pub fn parse_max_activities(value: Option<&str>) -> (r: Result<usize, ConfigError>)
    ensures
        match value {
            None => r == Ok::<usize, ConfigError>(DEFAULT_MAX_ACTIVITIES),
            Some(s) => match r {
                Ok(n) => is_decimal(s@) && decimal_value(s@) == n,
                Err(e) => e == ConfigError::ConfigMissing && !(is_decimal(s@) && decimal_value(
                    s@,
                ) <= usize::MAX),
            },
        },
{
    match value {
        None => Ok(DEFAULT_MAX_ACTIVITIES),
        Some(s) => match parse_count(s) {
            Some(n) => Ok(n),
            None => Err(ConfigError::ConfigMissing),
        },
    }
}

} // verus!
