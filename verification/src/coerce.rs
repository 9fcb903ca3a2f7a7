//! Scalar coercers: pure, total functions from raw wire scalars to strict
//! target types, under explicit equivalence rules. The service is
//! inconsistent about whether a boolean is `"1"`, `1` or `true`, and about
//! whether an absent list means "empty" or "unknown"; these functions encode
//! those distinctions instead of conflating them.

use vstd::prelude::*;
use crate::error::LoadError;
use crate::raw::RawValue;
use crate::text::{
    lower_seq, split_on, views_of, is_dec_digits, dec_value, signed_dec, eq_lower,
    split_char, parse_u64, parse_i64,
};

verus! {

/// A UTC instant, counted in whole seconds from the Unix epoch.
#[derive(Debug, Clone, Copy, PartialEq, Eq, Structural)]
pub struct Timestamp {
    pub secs: i64,
}

/// Whether chrono can represent this many seconds from the Unix epoch as a
/// UTC instant.
pub uninterp spec fn chrono_accepts_seconds(secs: int) -> bool;

/// Relies on chrono's `DateTime::<Utc>::from_timestamp`: it returns `Some`
/// exactly when the number of seconds is in chrono's representable range,
/// a fixed range that depends on nothing but the argument.
#[verifier::external_body]
fn utc_seconds_representable(secs: i64) -> (r: bool)
    ensures
        r == chrono_accepts_seconds(secs as int),
{
    chrono::DateTime::<chrono::Utc>::from_timestamp(secs, 0).is_some()
}

/// The tolerant boolean reading of a raw scalar: native booleans, numeric
/// zero/non-zero, and the case-insensitive strings `"true"`, `"false"`,
/// `"1"`, `"0"` and `""` (the empty string reads as `false`). Anything else
/// is a coercion failure.
pub open spec fn bool_coercion(v: RawValue) -> Option<bool> {
    match v {
        RawValue::Flag(b) => Some(b),
        RawValue::Num(i) => Some(i != 0),
        RawValue::Text(s) => {
            let l = lower_seq(s@);
            if l == "true"@ || l == "1"@ {
                Some(true)
            } else if l == "false"@ || l == "0"@ || l == ""@ {
                Some(false)
            } else {
                None
            }
        },
    }
}

/// Coerces a present scalar to a strict boolean; fails with
/// `InvalidBoolean` on any unrecognized shape.
pub fn bool_from_anything(v: &RawValue) -> (r: Result<bool, LoadError>)
    ensures
        match bool_coercion(*v) {
            Some(b) => r == Ok::<bool, LoadError>(b),
            None => r matches Err(LoadError::InvalidBoolean),
        },
{
    match v {
        RawValue::Flag(b) => Ok(*b),
        RawValue::Num(i) => Ok(*i != 0),
        RawValue::Text(s) => {
            let st = s.as_str();
            if eq_lower(st, "true") || eq_lower(st, "1") {
                Ok(true)
            } else if eq_lower(st, "false") || eq_lower(st, "0") || eq_lower(
                st,
                "",
            ) {
                Ok(false)
            } else {
                Err(LoadError::InvalidBoolean)
            }
        },
    }
}

/// The tolerant boolean reading of a possibly absent scalar: absence reads
/// as "no value", distinct from `false`.
pub open spec fn opt_bool_coercion(v: Option<RawValue>) -> Option<Option<bool>> {
    match v {
        None => Some(None),
        Some(rv) => match bool_coercion(rv) {
            Some(b) => Some(Some(b)),
            None => None,
        },
    }
}

/// The plain value behind an optional reference.
pub open spec fn opt_val(v: Option<&RawValue>) -> Option<RawValue> {
    match v {
        Some(x) => Some(*x),
        None => None,
    }
}

/// Coerces a possibly absent scalar to an optional strict boolean.
pub fn option_bool_from_anything(v: Option<&RawValue>) -> (r: Result<
    Option<bool>,
    LoadError,
>)
    ensures
        match opt_bool_coercion(opt_val(v)) {
            Some(ob) => r == Ok::<Option<bool>, LoadError>(ob),
            None => r matches Err(LoadError::InvalidBoolean),
        },
{
    match v {
        None => Ok(None),
        Some(rv) => match bool_from_anything(rv) {
            Ok(b) => Ok(Some(b)),
            Err(e) => Err(e),
        },
    }
}

/// The list reading of a string: comma-separated segments, where the empty
/// string reads as the empty list (not as absence).
pub open spec fn list_of_text(s: Seq<char>) -> Seq<Seq<char>> {
    if s.len() == 0 {
        Seq::empty()
    } else {
        split_on(s, ',')
    }
}

/// Splits a comma-separated string into its segments; the empty string
/// yields the empty list.
pub fn comma_separated_strings(s: &str) -> (r: Vec<String>)
    ensures
        views_of(r@) == list_of_text(s@),
{
    if s.unicode_len() == 0 {
        let r: Vec<String> = Vec::new();
        proof {
            assert(views_of(r@) =~= list_of_text(s@));
        }
        r
    } else {
        split_char(s, ',')
    }
}

/// Whether every comma-separated segment of `s` is a decimal number no
/// greater than `max`.
pub open spec fn num_list_ok(s: Seq<char>, max: int) -> bool {
    forall|i: int|
        0 <= i < list_of_text(s).len() ==> is_dec_digits(
            #[trigger] list_of_text(s)[i],
        ) && dec_value(list_of_text(s)[i]) <= max
}

/// The numeric values of the comma-separated segments of `s`.
pub open spec fn num_list_of_text(s: Seq<char>) -> Seq<int> {
    list_of_text(s).map_values(|seg: Seq<char>| dec_value(seg))
}

/// Parses a comma-separated string as unsigned numbers bounded by `max`;
/// a single malformed or out-of-range segment fails the whole list.
pub fn comma_separated_numbers(s: &str, max: u64) -> (r: Option<Vec<u64>>)
    ensures
        match r {
            Some(v) => num_list_ok(s@, max as int) && v@.map_values(
                |x: u64| x as int,
            ) == num_list_of_text(s@) && forall|i: int|
                0 <= i < v@.len() ==> #[trigger] v@[i] <= max,
            None => !num_list_ok(s@, max as int),
        },
{
    let segs = comma_separated_strings(s);
    let mut out: Vec<u64> = Vec::new();
    let mut i: usize = 0;
    while i < segs.len()
        invariant
            segs@.len() == list_of_text(s@).len(),
            views_of(segs@) == list_of_text(s@),
            i <= segs@.len(),
            out@.len() == i,
            forall|j: int|
                0 <= j < i ==> is_dec_digits(#[trigger] list_of_text(s@)[j])
                    && dec_value(list_of_text(s@)[j]) <= max,
            forall|j: int|
                0 <= j < i ==> #[trigger] out@[j] as int == dec_value(
                    list_of_text(s@)[j],
                ) && out@[j] <= max,
        decreases segs@.len() - i,
    {
        proof {
            assert(segs@[i as int]@ == list_of_text(s@)[i as int]);
        }
        match parse_u64(segs[i].as_str()) {
            Some(v) => {
                if v > max {
                    return None;
                }
                out.push(v);
            },
            None => {
                return None;
            },
        }
        i += 1;
    }
    proof {
        assert(out@.map_values(|x: u64| x as int) =~= num_list_of_text(s@));
    }
    Some(out)
}

/// The timestamp reading of a possibly absent scalar: absence and the empty
/// string read as "no value"; a number or a numeric string reads as that
/// many Unix-epoch seconds, provided chrono can represent the instant;
/// anything else is a coercion failure.
pub open spec fn opt_ts_coercion(v: Option<RawValue>) -> Option<Option<int>> {
    match v {
        None => Some(None),
        Some(RawValue::Flag(_)) => None,
        Some(RawValue::Num(i)) => if chrono_accepts_seconds(i as int) {
            Some(Some(i as int))
        } else {
            None
        },
        Some(RawValue::Text(s)) => if s@.len() == 0 {
            Some(None)
        } else {
            match signed_dec(s@) {
                Some(n) => if i64::MIN <= n <= i64::MAX && chrono_accepts_seconds(
                    n,
                ) {
                    Some(Some(n))
                } else {
                    None
                },
                None => None,
            }
        },
    }
}

/// Coerces a possibly absent scalar to an optional UTC instant; fails with
/// `InvalidTimestamp` on non-numeric input and on instants chrono cannot
/// represent.
pub fn option_seconds_to_timestamp(v: Option<&RawValue>) -> (r: Result<
    Option<Timestamp>,
    LoadError,
>)
    ensures
        match opt_ts_coercion(opt_val(v)) {
            Some(None) => r == Ok::<Option<Timestamp>, LoadError>(None),
            Some(Some(n)) => (r matches Ok(Some(t)) && t.secs as int == n),
            None => r matches Err(LoadError::InvalidTimestamp),
        },
{
    match v {
        None => Ok(None),
        Some(RawValue::Flag(_)) => Err(LoadError::InvalidTimestamp),
        Some(RawValue::Num(i)) => {
            if utc_seconds_representable(*i) {
                Ok(Some(Timestamp { secs: *i }))
            } else {
                Err(LoadError::InvalidTimestamp)
            }
        },
        Some(RawValue::Text(s)) => {
            if s.as_str().unicode_len() == 0 {
                Ok(None)
            } else {
                match parse_i64(s.as_str()) {
                    Some(n) => {
                        if utc_seconds_representable(n) {
                            Ok(Some(Timestamp { secs: n }))
                        } else {
                            Err(LoadError::InvalidTimestamp)
                        }
                    },
                    None => Err(LoadError::InvalidTimestamp),
                }
            }
        },
    }
}

/// The strict boolean reading of a raw scalar: a native boolean or the
/// exact strings `"true"`/`"false"`, nothing else.
pub open spec fn strict_bool(v: RawValue) -> Option<bool> {
    match v {
        RawValue::Flag(b) => Some(b),
        RawValue::Num(_) => None,
        RawValue::Text(s) => if s@ == "true"@ {
            Some(true)
        } else if s@ == "false"@ {
            Some(false)
        } else {
            None
        },
    }
}

/// Reads a strict boolean.
pub fn read_strict_bool(v: &RawValue) -> (r: Option<bool>)
    ensures
        r == strict_bool(*v),
{
    match v {
        RawValue::Flag(b) => Some(*b),
        RawValue::Num(_) => None,
        RawValue::Text(s) => {
            if crate::text::str_eq(s.as_str(), "true") {
                Some(true)
            } else if crate::text::str_eq(s.as_str(), "false") {
                Some(false)
            } else {
                None
            }
        },
    }
}

/// The strict unsigned reading of a raw scalar, bounded by `max`: a native
/// non-negative number or an all-digit string.
pub open spec fn strict_unsigned(v: RawValue, max: int) -> Option<int> {
    match v {
        RawValue::Flag(_) => None,
        RawValue::Num(i) => if 0 <= i <= max {
            Some(i as int)
        } else {
            None
        },
        RawValue::Text(s) => if is_dec_digits(s@) && dec_value(s@) <= max {
            Some(dec_value(s@))
        } else {
            None
        },
    }
}

/// Reads a strict unsigned number bounded by `max`.
pub fn read_strict_unsigned(v: &RawValue, max: u64) -> (r: Option<u64>)
    ensures
        match r {
            Some(n) => strict_unsigned(*v, max as int) == Some(n as int),
            None => strict_unsigned(*v, max as int) is None,
        },
{
    match v {
        RawValue::Flag(_) => None,
        RawValue::Num(i) => {
            if *i >= 0 && *i as u64 <= max {
                Some(*i as u64)
            } else {
                None
            }
        },
        RawValue::Text(s) => {
            match parse_u64(s.as_str()) {
                Some(n) => if n <= max {
                    Some(n)
                } else {
                    None
                },
                None => {
                    proof {
                        if is_dec_digits(s@) && dec_value(s@) <= max as int {
                            assert(dec_value(s@) <= u64::MAX);
                        }
                    }
                    None
                },
            }
        },
    }
}

/// The strict string reading of a raw scalar.
pub open spec fn strict_text(v: RawValue) -> Option<Seq<char>> {
    match v {
        RawValue::Text(s) => Some(s@),
        _ => None,
    }
}

/// Reads a strict string, copying it out of the raw value.
pub fn read_strict_text(v: &RawValue) -> (r: Option<String>)
    ensures
        match r {
            Some(s) => strict_text(*v) == Some(s@),
            None => strict_text(*v) is None,
        },
{
    match v {
        RawValue::Text(s) => Some(s.clone()),
        _ => None,
    }
}

} // verus!
