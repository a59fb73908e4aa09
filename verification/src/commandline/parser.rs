//! The values of command-line options: durations, speed limits, headers.
use vstd::prelude::*;
use crate::text::{
    chars_of, ends_with, ends_with_str, float_literal, is_float_literal, parse_unsigned,
    parse_unsigned_chars, split, split_chars, split_once, split_once_chars, string_of,
    strip_trailing, strip_trailing_chars, trim, trim_chars, views,
};

verus! {

/// Why a `HH:mm:ss` duration was refused.
#[derive(Debug, Clone, Copy, PartialEq, Eq, Structural)]
pub enum DurationError {
    InvalidFormat,
    InvalidHours,
    InvalidMinutes,
    InvalidSeconds,
}

impl DurationError {
    /// The message of the error.
    pub fn message(&self) -> (r: String)
        ensures
            r@ == duration_error_text(*self),
    {
        match self {
            DurationError::InvalidFormat => String::from_str("Invalid duration format"),
            DurationError::InvalidHours => String::from_str("Invalid hours"),
            DurationError::InvalidMinutes => String::from_str("Invalid minutes"),
            DurationError::InvalidSeconds => String::from_str("Invalid seconds"),
        }
    }
}

pub open spec fn duration_error_text(e: DurationError) -> Seq<char> {
    match e {
        DurationError::InvalidFormat => "Invalid duration format"@,
        DurationError::InvalidHours => "Invalid hours"@,
        DurationError::InvalidMinutes => "Invalid minutes"@,
        DurationError::InvalidSeconds => "Invalid seconds"@,
    }
}

/// A `u64` field of a duration.
pub open spec fn duration_field(s: Seq<char>) -> Option<nat> {
    parse_unsigned(s, u64::MAX as nat)
}

/// The seconds that `HH:mm:ss` (three `:`-separated `u64` fields) denotes,
/// or why it denotes none.
pub open spec fn duration_seconds(input: Seq<char>) -> Result<nat, DurationError> {
    let parts = split(input, ':');
    if parts.len() != 3 {
        Err(DurationError::InvalidFormat)
    } else {
        match duration_field(parts[0]) {
            None => Err(DurationError::InvalidHours),
            Some(h) => match duration_field(parts[1]) {
                None => Err(DurationError::InvalidMinutes),
                Some(m) => match duration_field(parts[2]) {
                    None => Err(DurationError::InvalidSeconds),
                    Some(s) => Ok(h * 3600 + m * 60 + s),
                },
            },
        }
    }
}

/// A duration that parses counts at most `u64::MAX` seconds.
pub open spec fn duration_fits(input: Seq<char>) -> bool {
    match duration_seconds(input) {
        Ok(n) => n <= u64::MAX,
        Err(_) => true,
    }
}

/// Whether the seconds of a `HH:mm:ss` duration fit in a `u64`.
pub fn duration_in_range(input: &str) -> (r: bool)
    ensures
        r == duration_fits(input@),
{
    let text = chars_of(input);
    let parts = split_chars(text.as_slice(), ':');
    if parts.len() != 3 {
        return true;
    }
    assert(views(parts@)[0] == parts@[0]@ && views(parts@)[1] == parts@[1]@ && views(parts@)[2]
        == parts@[2]@);
    match (
        parse_unsigned_chars(parts[0].as_slice(), u64::MAX),
        parse_unsigned_chars(parts[1].as_slice(), u64::MAX),
        parse_unsigned_chars(parts[2].as_slice(), u64::MAX),
    ) {
        (Some(h), Some(m), Some(s)) => {
            let total: u128 = (h as u128) * 3600 + (m as u128) * 60 + (s as u128);
            total <= u64::MAX as u128
        },
        _ => true,
    }
}

/// The seconds of a `HH:mm:ss` duration.
pub fn parse_duration(input: &str) -> (r: Result<u64, DurationError>)
    requires
        duration_fits(input@),
    ensures
        match duration_seconds(input@) {
            Ok(n) => r == Ok::<u64, DurationError>(n as u64),
            Err(e) => r == Err::<u64, DurationError>(e),
        },
{
    let text = chars_of(input);
    let parts = split_chars(text.as_slice(), ':');
    if parts.len() != 3 {
        return Err(DurationError::InvalidFormat);
    }
    assert(views(parts@)[0] == parts@[0]@ && views(parts@)[1] == parts@[1]@ && views(parts@)[2]
        == parts@[2]@);
    let h = match parse_unsigned_chars(parts[0].as_slice(), u64::MAX) {
        Some(h) => h,
        None => {
            return Err(DurationError::InvalidHours);
        },
    };
    let m = match parse_unsigned_chars(parts[1].as_slice(), u64::MAX) {
        Some(m) => m,
        None => {
            return Err(DurationError::InvalidMinutes);
        },
    };
    let s = match parse_unsigned_chars(parts[2].as_slice(), u64::MAX) {
        Some(s) => s,
        None => {
            return Err(DurationError::InvalidSeconds);
        },
    };
    Ok(h * 3600 + m * 60 + s)
}

// ---------------------------------------------------------------------------
// Speed limits
// ---------------------------------------------------------------------------

/// What `str::to_uppercase` gives for `s` (Unicode uppercase mapping).
pub uninterp spec fn uppercase_of(s: Seq<char>) -> Seq<char>;

/// `str::to_uppercase`: the Unicode uppercase mapping, given only by name.
#[verifier::external_body]
fn to_uppercase(s: &str) -> (r: String)
    ensures
        r@ == uppercase_of(s@),
{
    s.to_uppercase()
}

/// Why a speed limit was refused.
#[derive(Debug, Clone, Copy, PartialEq, Eq, Structural)]
pub enum SpeedError {
    /// The number before the unit is not a float.
    InvalidValue,
    /// The text ends in neither `M` nor `K`.
    InvalidFormat,
}

impl SpeedError {
    /// The message of the error.
    pub fn message(&self) -> (r: String)
        ensures
            r@ == speed_error_text(*self),
    {
        match self {
            SpeedError::InvalidValue => String::from_str("Invalid speed value"),
            SpeedError::InvalidFormat => String::from_str("Invalid speed format"),
        }
    }
}

pub open spec fn speed_error_text(e: SpeedError) -> Seq<char> {
    match e {
        SpeedError::InvalidValue => "Invalid speed value"@,
        SpeedError::InvalidFormat => "Invalid speed format"@,
    }
}

/// A speed limit: a float (as decimal text) times a unit in bytes per second.
#[derive(Debug)]
pub struct SpeedLimit {
    /// The number, a text that `str::parse::<f64>` accepts.
    pub value: String,
    /// 1_000_000 for `M`, 1_000 for `K`.
    pub multiplier: u64,
}

/// The speed limit that an uppercased, trimmed text states: a float and then
/// `M` (10^6) or `K` (10^3); every trailing unit letter is dropped before
/// the number is read.
pub open spec fn speed_of_upper(t: Seq<char>) -> Result<(Seq<char>, u64), SpeedError> {
    if ends_with(t, seq!['M']) {
        let v = strip_trailing(t, 'M');
        if float_literal(v) {
            Ok((v, 1000000u64))
        } else {
            Err(SpeedError::InvalidValue)
        }
    } else if ends_with(t, seq!['K']) {
        let v = strip_trailing(t, 'K');
        if float_literal(v) {
            Ok((v, 1000u64))
        } else {
            Err(SpeedError::InvalidValue)
        }
    } else {
        Err(SpeedError::InvalidFormat)
    }
}

pub open spec fn speed_view(r: Result<SpeedLimit, SpeedError>) -> Result<(Seq<char>, u64), SpeedError> {
    match r {
        Ok(l) => Ok((l.value@, l.multiplier)),
        Err(e) => Err(e),
    }
}

/// The speed limit that an uppercased, trimmed text states.
pub fn parse_speed_upper(t: &[char]) -> (r: Result<SpeedLimit, SpeedError>)
    ensures
        speed_view(r) == speed_of_upper(t@),
{
    let m = ['M'];
    let k = ['K'];
    assert(m@ == seq!['M']);
    assert(k@ == seq!['K']);
    if crate::text::ends_with_chars(t, m.as_slice()) {
        let v = strip_trailing_chars(t, 'M');
        if is_float_literal(v.as_slice()) {
            Ok(SpeedLimit { value: string_of(v.as_slice()), multiplier: 1000000 })
        } else {
            Err(SpeedError::InvalidValue)
        }
    } else if crate::text::ends_with_chars(t, k.as_slice()) {
        let v = strip_trailing_chars(t, 'K');
        if is_float_literal(v.as_slice()) {
            Ok(SpeedLimit { value: string_of(v.as_slice()), multiplier: 1000 })
        } else {
            Err(SpeedError::InvalidValue)
        }
    } else {
        Err(SpeedError::InvalidFormat)
    }
}

/// A speed limit such as `15M` or `800K`: the input is trimmed and
/// uppercased, then read by `parse_speed_upper`.
pub fn parse_speed(input: &str) -> (r: Result<SpeedLimit, SpeedError>)
    ensures
        speed_view(r) == speed_of_upper(uppercase_of(trim(input@))),
{
    let text = chars_of(input);
    let trimmed = trim_chars(text.as_slice());
    let ts = string_of(trimmed.as_slice());
    let upper = to_uppercase(ts.as_str());
    let uc = chars_of(upper.as_str());
    parse_speed_upper(uc.as_slice())
}

// ---------------------------------------------------------------------------
// Headers
// ---------------------------------------------------------------------------

/// The name and value of a `Name: value` header, both trimmed; `None`
/// without a `:`.
pub open spec fn header_of(h: Seq<char>) -> Option<(Seq<char>, Seq<char>)> {
    match split_once(h, ':') {
        Some((k, v)) => Some((trim(k), trim(v))),
        None => None,
    }
}

/// The name and value of a `Name: value` header.
pub fn parse_header(header: &str) -> (r: Option<(String, String)>)
    ensures
        match r {
            Some((k, v)) => header_of(header@) == Some((k@, v@)),
            None => header_of(header@) is None,
        },
{
    let text = chars_of(header);
    match split_once_chars(text.as_slice(), ':') {
        Some((k, v)) => {
            let kt = trim_chars(k.as_slice());
            let vt = trim_chars(v.as_slice());
            Some((string_of(kt.as_slice()), string_of(vt.as_slice())))
        },
        None => None,
    }
}

} // verus!
