//! The deployment environments that a run can target, and the command-line
//! argument that preselects one of them.
use vstd::prelude::*;
use crate::text::{decimal_chars, decimal_value, digit_value, is_decimal, is_digit, push_decimal};

verus! {

/// Environments are numbered `1..=ENVIRONMENT_COUNT`.
pub const ENVIRONMENT_COUNT: u64 = 8;

/// Why an environment argument was refused.
#[derive(Debug, Clone, Copy, PartialEq, Eq, Structural)]
pub enum ArgumentError {
    /// The argument is not a non-empty run of decimal digits.
    NotANumber,
    /// The argument is a number outside `1..=ENVIRONMENT_COUNT`.
    OutOfRange,
}

/// The label of environment `number`: `experimental<number>`.
pub open spec fn environment_label_spec(number: nat) -> Seq<char> {
    "experimental"@ + decimal_chars(number)
}

/// What `parse_environment_number` returns for `arg`.
pub open spec fn parse_environment_spec(arg: Seq<char>) -> Result<u64, ArgumentError> {
    if !is_decimal(arg) {
        Err(ArgumentError::NotANumber)
    } else if 1 <= decimal_value(arg) <= ENVIRONMENT_COUNT {
        Ok(decimal_value(arg) as u64)
    } else {
        Err(ArgumentError::OutOfRange)
    }
}

/// The label sent as the workflow's `target` input for environment `number`.
/// The environment prompt lists the labels in order, so the answer `i`
/// selects environment `i + 1`.
pub fn environment_label(number: u64) -> (r: String)
    ensures
        r@ == environment_label_spec(number as nat),
        r@.len() > 0,
{
    let mut out = String::from_str("experimental");
    push_decimal(&mut out, number);
    proof {
        crate::text::lemma_decimal_chars_nonempty(number as nat);
    }
    out
}

/// The labels of all environments, environment `1` first.
pub fn environment_labels() -> (r: Vec<String>)
    ensures
        r@.len() == ENVIRONMENT_COUNT,
        forall|i: int| 0 <= i < r@.len() ==> #[trigger] r@[i]@ == environment_label_spec((i + 1) as nat),
{
    let mut labels: Vec<String> = Vec::new();
    let mut n: u64 = 1;
    while n <= ENVIRONMENT_COUNT
        invariant
            1 <= n <= ENVIRONMENT_COUNT + 1,
            labels@.len() == n - 1,
            forall|i: int| 0 <= i < labels@.len() ==> #[trigger] labels@[i]@ == environment_label_spec((i + 1) as nat),
        decreases ENVIRONMENT_COUNT + 1 - n,
    {
        labels.push(environment_label(n));
        n = n + 1;
    }
    labels
}

/// Reads the environment number given on the command line. Only a non-empty
/// run of ASCII digits is a number (no sign, no blanks); it must lie in
/// `1..=ENVIRONMENT_COUNT`.
pub fn parse_environment_number(arg: &str) -> (r: Result<u64, ArgumentError>)
    ensures
        r == parse_environment_spec(arg@),
{
    let len = arg.unicode_len();
    if len == 0 {
        return Err(ArgumentError::NotANumber);
    }
    let mut value: u64 = 0;
    let mut too_large = false;
    let mut i: usize = 0;
    while i < len
        invariant
            len == arg@.len(),
            i <= len,
            forall|k: int| 0 <= k < i ==> is_digit(#[trigger] arg@[k]),
            !too_large ==> value as nat == decimal_value(arg@.subrange(0, i as int)),
            !too_large ==> value <= ENVIRONMENT_COUNT,
            too_large ==> decimal_value(arg@.subrange(0, i as int)) > ENVIRONMENT_COUNT,
        decreases len - i,
    {
        let c = arg.get_char(i);
        if !('0' <= c && c <= '9') {
            assert(!is_digit(arg@[i as int]));
            return Err(ArgumentError::NotANumber);
        }
        let ghost prev = arg@.subrange(0, i as int);
        assert(arg@.subrange(0, i + 1).drop_last() =~= prev);
        assert(arg@.subrange(0, i + 1).last() == c);
        if !too_large {
            let d = (c as u32 - '0' as u32) as u64;
            assert(d as nat == digit_value(c));
            value = value * 10 + d;
            if value > ENVIRONMENT_COUNT {
                too_large = true;
            }
        }
        i = i + 1;
    }
    assert(arg@.subrange(0, len as int) =~= arg@);
    if too_large || value == 0 {
        Err(ArgumentError::OutOfRange)
    } else {
        Ok(value)
    }
}

/// Every accepted argument names an environment; every environment number
/// written in decimal is accepted as itself; the numbers just outside the
/// range are refused as out of range.
pub proof fn lemma_environment_argument_bounds(arg: Seq<char>, n: nat)
    ensures
        parse_environment_spec(arg) is Ok ==> 1 <= parse_environment_spec(arg)->Ok_0
            <= ENVIRONMENT_COUNT,
        1 <= n <= ENVIRONMENT_COUNT ==> parse_environment_spec(decimal_chars(n)) == Ok::<
            u64,
            ArgumentError,
        >(n as u64),
        parse_environment_spec(decimal_chars(0)) == Err::<u64, ArgumentError>(
            ArgumentError::OutOfRange,
        ),
        parse_environment_spec(decimal_chars((ENVIRONMENT_COUNT + 1) as nat)) == Err::<
            u64,
            ArgumentError,
        >(ArgumentError::OutOfRange),
        !is_decimal(arg) ==> parse_environment_spec(arg) == Err::<u64, ArgumentError>(
            ArgumentError::NotANumber,
        ),
{
    crate::text::lemma_decimal_round_trip(n);
    crate::text::lemma_decimal_round_trip(0);
    crate::text::lemma_decimal_round_trip((ENVIRONMENT_COUNT + 1) as nat);
}

} // verus!
