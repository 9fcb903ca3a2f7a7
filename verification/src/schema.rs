//! Field readers: each one resolves a named attribute of a raw element
//! against one declared field shape — required or optional, strict or
//! tolerant — and reports failures with the field's declared name.
//! "Absent with a defined default" and "present but malformed" always take
//! different paths here; malformed input is never silently defaulted.

use vstd::prelude::*;
use crate::error::LoadError;
use crate::raw::{RawAttr, RawValue, lookup, get_attr};
use crate::coerce::{
    Timestamp, bool_coercion, bool_from_anything, opt_bool_coercion,
    option_bool_from_anything, opt_val, strict_bool, read_strict_bool,
    strict_unsigned, read_strict_unsigned, strict_text, read_strict_text,
    list_of_text, comma_separated_strings, num_list_ok, num_list_of_text,
    comma_separated_numbers, opt_ts_coercion, option_seconds_to_timestamp,
};
use crate::text::views_of;

verus! {

/// The view of an optional owned string.
pub open spec fn oview(x: Option<String>) -> Option<Seq<char>> {
    match x {
        Some(s) => Some(s@),
        None => None,
    }
}

/// The numeric view of an optional unsigned value.
pub open spec fn oint_u64(x: Option<u64>) -> Option<int> {
    match x {
        Some(n) => Some(n as int),
        None => None,
    }
}

/// The numeric view of an optional timestamp.
pub open spec fn ots_view(x: Option<Timestamp>) -> Option<int> {
    match x {
        Some(t) => Some(t.secs as int),
        None => None,
    }
}

/// A missing-required-field error, carrying the field's declared name.
fn missing(name: &str) -> (e: LoadError)
    ensures
        e matches LoadError::SchemaMismatch { field, reason } && field@ == name@,
        e.is_decode_failure(),
{
    LoadError::SchemaMismatch {
        field: String::from_str(name),
        reason: String::from_str("required attribute is absent"),
    }
}

/// A wrong-shape error, carrying the field's declared name.
fn mismatch(name: &str) -> (e: LoadError)
    ensures
        e matches LoadError::SchemaMismatch { field, reason } && field@ == name@,
        e.is_decode_failure(),
{
    LoadError::SchemaMismatch {
        field: String::from_str(name),
        reason: String::from_str("attribute does not match its declared type"),
    }
}

/// The tolerant boolean resolution of a required attribute.
pub open spec fn f_tolerant_bool(a: Seq<RawAttr>, n: Seq<char>) -> Option<bool> {
    match lookup(a, n) {
        Some(v) => bool_coercion(v),
        None => None,
    }
}

/// Reads a required boolean attribute under the tolerant coercion rules.
pub fn req_tolerant_bool(attrs: &Vec<RawAttr>, name: &str) -> (r: Result<
    bool,
    LoadError,
>)
    ensures
        match r {
            Ok(b) => f_tolerant_bool(attrs@, name@) == Some(b),
            Err(e) => f_tolerant_bool(attrs@, name@) is None
                && e.is_decode_failure() && (lookup(attrs@, name@) is None
                ==> (e matches LoadError::SchemaMismatch { field, .. } && field@ == name@)),
        },
{
    match get_attr(attrs, name) {
        None => Err(missing(name)),
        Some(v) => bool_from_anything(v),
    }
}

/// The tolerant boolean resolution of an attribute that defaults to `false`
/// when absent.
pub open spec fn f_tolerant_bool_default(a: Seq<RawAttr>, n: Seq<char>) -> Option<
    bool,
> {
    match lookup(a, n) {
        Some(v) => bool_coercion(v),
        None => Some(false),
    }
}

/// Reads a tolerant boolean attribute that defaults to `false` when absent.
pub fn def_tolerant_bool(attrs: &Vec<RawAttr>, name: &str) -> (r: Result<
    bool,
    LoadError,
>)
    ensures
        match r {
            Ok(b) => f_tolerant_bool_default(attrs@, name@) == Some(b),
            Err(e) => f_tolerant_bool_default(attrs@, name@) is None
                && e.is_decode_failure(),
        },
{
    match get_attr(attrs, name) {
        None => Ok(false),
        Some(v) => bool_from_anything(v),
    }
}

/// The tolerant boolean resolution of an optional attribute: absence is
/// "no value", distinct from `false`.
pub open spec fn f_opt_tolerant_bool(a: Seq<RawAttr>, n: Seq<char>) -> Option<
    Option<bool>,
> {
    opt_bool_coercion(lookup(a, n))
}

/// Reads an optional boolean attribute under the tolerant coercion rules.
pub fn opt_tolerant_bool(attrs: &Vec<RawAttr>, name: &str) -> (r: Result<
    Option<bool>,
    LoadError,
>)
    ensures
        match r {
            Ok(ob) => f_opt_tolerant_bool(attrs@, name@) == Some(ob),
            Err(e) => f_opt_tolerant_bool(attrs@, name@) is None
                && e.is_decode_failure(),
        },
{
    let v = get_attr(attrs, name);
    let r = option_bool_from_anything(v);
    proof {
        assert(opt_val(v) == lookup(attrs@, name@));
    }
    r
}

/// The strict boolean resolution of a required attribute.
pub open spec fn f_strict_bool(a: Seq<RawAttr>, n: Seq<char>) -> Option<bool> {
    match lookup(a, n) {
        Some(v) => strict_bool(v),
        None => None,
    }
}

/// Reads a required strictly typed boolean attribute.
pub fn req_strict_bool(attrs: &Vec<RawAttr>, name: &str) -> (r: Result<
    bool,
    LoadError,
>)
    ensures
        match r {
            Ok(b) => f_strict_bool(attrs@, name@) == Some(b),
            Err(e) => f_strict_bool(attrs@, name@) is None
                && (e matches LoadError::SchemaMismatch { field, .. } && field@ == name@),
        },
{
    match get_attr(attrs, name) {
        None => Err(missing(name)),
        Some(v) => match read_strict_bool(v) {
            Some(b) => Ok(b),
            None => Err(mismatch(name)),
        },
    }
}

/// The strict boolean resolution of an optional attribute.
pub open spec fn f_opt_strict_bool(a: Seq<RawAttr>, n: Seq<char>) -> Option<
    Option<bool>,
> {
    match lookup(a, n) {
        None => Some(None),
        Some(v) => match strict_bool(v) {
            Some(b) => Some(Some(b)),
            None => None,
        },
    }
}

/// Reads an optional strictly typed boolean attribute.
pub fn opt_strict_bool(attrs: &Vec<RawAttr>, name: &str) -> (r: Result<
    Option<bool>,
    LoadError,
>)
    ensures
        match r {
            Ok(ob) => f_opt_strict_bool(attrs@, name@) == Some(ob),
            Err(e) => f_opt_strict_bool(attrs@, name@) is None
                && (e matches LoadError::SchemaMismatch { field, .. } && field@ == name@),
        },
{
    match get_attr(attrs, name) {
        None => Ok(None),
        Some(v) => match read_strict_bool(v) {
            Some(b) => Ok(Some(b)),
            None => Err(mismatch(name)),
        },
    }
}

/// The string resolution of a required attribute.
pub open spec fn f_text(a: Seq<RawAttr>, n: Seq<char>) -> Option<Seq<char>> {
    match lookup(a, n) {
        Some(v) => strict_text(v),
        None => None,
    }
}

/// Reads a required string attribute.
pub fn req_text(attrs: &Vec<RawAttr>, name: &str) -> (r: Result<
    String,
    LoadError,
>)
    ensures
        match r {
            Ok(s) => f_text(attrs@, name@) == Some(s@),
            Err(e) => f_text(attrs@, name@) is None
                && (e matches LoadError::SchemaMismatch { field, .. } && field@ == name@),
        },
{
    match get_attr(attrs, name) {
        None => Err(missing(name)),
        Some(v) => match read_strict_text(v) {
            Some(s) => Ok(s),
            None => Err(mismatch(name)),
        },
    }
}

/// The string resolution of an optional attribute.
pub open spec fn f_opt_text(a: Seq<RawAttr>, n: Seq<char>) -> Option<
    Option<Seq<char>>,
> {
    match lookup(a, n) {
        None => Some(None),
        Some(v) => match strict_text(v) {
            Some(s) => Some(Some(s)),
            None => None,
        },
    }
}

/// Reads an optional string attribute.
pub fn opt_text(attrs: &Vec<RawAttr>, name: &str) -> (r: Result<
    Option<String>,
    LoadError,
>)
    ensures
        match r {
            Ok(os) => f_opt_text(attrs@, name@) == Some(oview(os)),
            Err(e) => f_opt_text(attrs@, name@) is None
                && (e matches LoadError::SchemaMismatch { field, .. } && field@ == name@),
        },
{
    match get_attr(attrs, name) {
        None => Ok(None),
        Some(v) => match read_strict_text(v) {
            Some(s) => Ok(Some(s)),
            None => Err(mismatch(name)),
        },
    }
}

/// The string resolution of an attribute that defaults to the empty string
/// when absent.
pub open spec fn f_text_default(a: Seq<RawAttr>, n: Seq<char>) -> Option<
    Seq<char>,
> {
    match lookup(a, n) {
        None => Some(Seq::<char>::empty()),
        Some(v) => strict_text(v),
    }
}

/// Reads a string attribute that defaults to the empty string when absent.
pub fn def_text(attrs: &Vec<RawAttr>, name: &str) -> (r: Result<
    String,
    LoadError,
>)
    ensures
        match r {
            Ok(s) => f_text_default(attrs@, name@) == Some(s@),
            Err(e) => f_text_default(attrs@, name@) is None
                && (e matches LoadError::SchemaMismatch { field, .. } && field@ == name@),
        },
{
    match get_attr(attrs, name) {
        None => {
            let s = String::new();
            proof {
                assert(s@ =~= Seq::<char>::empty());
            }
            Ok(s)
        },
        Some(v) => match read_strict_text(v) {
            Some(s) => Ok(s),
            None => Err(mismatch(name)),
        },
    }
}

/// The unsigned resolution of a required attribute, bounded by `max`.
pub open spec fn f_unsigned(a: Seq<RawAttr>, n: Seq<char>, max: int) -> Option<
    int,
> {
    match lookup(a, n) {
        Some(v) => strict_unsigned(v, max),
        None => None,
    }
}

/// Reads a required unsigned attribute bounded by `max`.
pub fn req_unsigned(attrs: &Vec<RawAttr>, name: &str, max: u64) -> (r: Result<
    u64,
    LoadError,
>)
    ensures
        match r {
            Ok(n) => f_unsigned(attrs@, name@, max as int) == Some(n as int) && n
                <= max,
            Err(e) => f_unsigned(attrs@, name@, max as int) is None
                && (e matches LoadError::SchemaMismatch { field, .. } && field@ == name@),
        },
{
    match get_attr(attrs, name) {
        None => Err(missing(name)),
        Some(v) => match read_strict_unsigned(v, max) {
            Some(n) => Ok(n),
            None => Err(mismatch(name)),
        },
    }
}

/// The unsigned resolution of an optional attribute, bounded by `max`.
pub open spec fn f_opt_unsigned(a: Seq<RawAttr>, n: Seq<char>, max: int) -> Option<
    Option<int>,
> {
    match lookup(a, n) {
        None => Some(None),
        Some(v) => match strict_unsigned(v, max) {
            Some(x) => Some(Some(x)),
            None => None,
        },
    }
}

/// Reads an optional unsigned attribute bounded by `max`.
pub fn opt_unsigned(attrs: &Vec<RawAttr>, name: &str, max: u64) -> (r: Result<
    Option<u64>,
    LoadError,
>)
    ensures
        match r {
            Ok(on) => f_opt_unsigned(attrs@, name@, max as int) == Some(
                oint_u64(on),
            ) && (on matches Some(n) ==> n <= max),
            Err(e) => f_opt_unsigned(attrs@, name@, max as int) is None
                && (e matches LoadError::SchemaMismatch { field, .. } && field@ == name@),
        },
{
    match get_attr(attrs, name) {
        None => Ok(None),
        Some(v) => match read_strict_unsigned(v, max) {
            Some(n) => Ok(Some(n)),
            None => Err(mismatch(name)),
        },
    }
}

/// The comma-separated-list resolution of an optional attribute whose
/// elements stay strings.
pub open spec fn f_opt_list_text(a: Seq<RawAttr>, n: Seq<char>) -> Option<
    Option<Seq<Seq<char>>>,
> {
    match lookup(a, n) {
        None => Some(None),
        Some(RawValue::Text(s)) => Some(Some(list_of_text(s@))),
        Some(_) => None,
    }
}

/// The views of an optional list of owned strings.
pub open spec fn olist_text_view(x: Option<Vec<String>>) -> Option<
    Seq<Seq<char>>,
> {
    match x {
        Some(v) => Some(views_of(v@)),
        None => None,
    }
}

/// Reads an optional comma-separated string-list attribute. An absent
/// attribute is "no value"; an empty string is the empty list.
pub fn opt_list_text(attrs: &Vec<RawAttr>, name: &str) -> (r: Result<
    Option<Vec<String>>,
    LoadError,
>)
    ensures
        match r {
            Ok(ol) => f_opt_list_text(attrs@, name@) == Some(olist_text_view(ol)),
            Err(e) => f_opt_list_text(attrs@, name@) is None
                && (e matches LoadError::SchemaMismatch { field, .. } && field@ == name@),
        },
{
    match get_attr(attrs, name) {
        None => Ok(None),
        Some(RawValue::Text(s)) => Ok(Some(comma_separated_strings(s.as_str()))),
        Some(_) => Err(mismatch(name)),
    }
}

/// The comma-separated-list resolution of an optional attribute whose
/// elements are unsigned numbers bounded by `max`.
pub open spec fn f_opt_list_num(a: Seq<RawAttr>, n: Seq<char>, max: int) -> Option<
    Option<Seq<int>>,
> {
    match lookup(a, n) {
        None => Some(None),
        Some(RawValue::Text(s)) => if num_list_ok(s@, max) {
            Some(Some(num_list_of_text(s@)))
        } else {
            None
        },
        Some(_) => None,
    }
}

/// The numeric views of an optional list of unsigned values.
pub open spec fn olist_num_view(x: Option<Vec<u64>>) -> Option<Seq<int>> {
    match x {
        Some(v) => Some(v@.map_values(|n: u64| n as int)),
        None => None,
    }
}

/// Reads an optional comma-separated number-list attribute; one malformed
/// or out-of-range element fails the whole field.
pub fn opt_list_num(attrs: &Vec<RawAttr>, name: &str, max: u64) -> (r: Result<
    Option<Vec<u64>>,
    LoadError,
>)
    ensures
        match r {
            Ok(ol) => f_opt_list_num(attrs@, name@, max as int) == Some(
                olist_num_view(ol),
            ) && (ol matches Some(l) ==> forall|i: int|
                0 <= i < l@.len() ==> #[trigger] l@[i] <= max),
            Err(e) => f_opt_list_num(attrs@, name@, max as int) is None
                && (e matches LoadError::SchemaMismatch { field, .. } && field@ == name@),
        },
{
    match get_attr(attrs, name) {
        None => Ok(None),
        Some(RawValue::Text(s)) => match comma_separated_numbers(s.as_str(), max) {
            Some(l) => Ok(Some(l)),
            None => Err(mismatch(name)),
        },
        Some(_) => Err(mismatch(name)),
    }
}

/// The timestamp resolution of an optional attribute.
pub open spec fn f_opt_ts(a: Seq<RawAttr>, n: Seq<char>) -> Option<Option<int>> {
    opt_ts_coercion(lookup(a, n))
}

/// Reads an optional Unix-epoch timestamp attribute.
pub fn opt_ts(attrs: &Vec<RawAttr>, name: &str) -> (r: Result<
    Option<Timestamp>,
    LoadError,
>)
    ensures
        match r {
            Ok(ot) => f_opt_ts(attrs@, name@) == Some(ots_view(ot)),
            Err(e) => f_opt_ts(attrs@, name@) is None
                && e matches LoadError::InvalidTimestamp,
        },
{
    let v = get_attr(attrs, name);
    proof {
        assert(opt_val(v) == lookup(attrs@, name@));
    }
    let r = option_seconds_to_timestamp(v);
    match r {
        Ok(ot) => Ok(ot),
        Err(e) => Err(e),
    }
}

/// The timestamp resolution of a required attribute: it must be present
/// and must name an instant.
pub open spec fn f_req_ts(a: Seq<RawAttr>, n: Seq<char>) -> Option<int> {
    match opt_ts_coercion(lookup(a, n)) {
        Some(Some(x)) => Some(x),
        _ => None,
    }
}

/// Reads a required Unix-epoch timestamp attribute.
pub fn req_ts(attrs: &Vec<RawAttr>, name: &str) -> (r: Result<
    Timestamp,
    LoadError,
>)
    ensures
        match r {
            Ok(t) => f_req_ts(attrs@, name@) == Some(t.secs as int),
            Err(e) => f_req_ts(attrs@, name@) is None && e.is_decode_failure()
                && (lookup(attrs@, name@) is None
                ==> (e matches LoadError::SchemaMismatch { field, .. } && field@ == name@)),
        },
{
    match get_attr(attrs, name) {
        None => Err(missing(name)),
        Some(v) => {
            let sv = Some(v);
            proof {
                assert(opt_val(sv) == lookup(attrs@, name@));
            }
            match option_seconds_to_timestamp(sv) {
                Ok(Some(t)) => Ok(t),
                Ok(None) => Err(LoadError::InvalidTimestamp),
                Err(e) => Err(e),
            }
        },
    }
}

/// Narrows a list of bounded values to 16 bits, value for value.
pub fn to_u16_list(v: Vec<u64>) -> (r: Vec<u16>)
    requires
        forall|i: int| 0 <= i < v@.len() ==> #[trigger] v@[i] <= u16::MAX,
    ensures
        r@.map_values(|n: u16| n as int) == v@.map_values(|n: u64| n as int),
{
    let mut r: Vec<u16> = Vec::new();
    let mut i: usize = 0;
    while i < v.len()
        invariant
            forall|j: int| 0 <= j < v@.len() ==> #[trigger] v@[j] <= u16::MAX,
            i <= v@.len(),
            r@.len() == i,
            forall|j: int| 0 <= j < i ==> #[trigger] r@[j] as int == v@[j] as int,
        decreases v@.len() - i,
    {
        r.push(v[i] as u16);
        i += 1;
    }
    proof {
        assert(r@.map_values(|n: u16| n as int) =~= v@.map_values(
            |n: u64| n as int,
        ));
    }
    r
}

/// Narrows a list of bounded values to 8 bits, value for value.
pub fn to_u8_list(v: Vec<u64>) -> (r: Vec<u8>)
    requires
        forall|i: int| 0 <= i < v@.len() ==> #[trigger] v@[i] <= u8::MAX,
    ensures
        r@.map_values(|n: u8| n as int) == v@.map_values(|n: u64| n as int),
{
    let mut r: Vec<u8> = Vec::new();
    let mut i: usize = 0;
    while i < v.len()
        invariant
            forall|j: int| 0 <= j < v@.len() ==> #[trigger] v@[j] <= u8::MAX,
            i <= v@.len(),
            r@.len() == i,
            forall|j: int| 0 <= j < i ==> #[trigger] r@[j] as int == v@[j] as int,
        decreases v@.len() - i,
    {
        r.push(v[i] as u8);
        i += 1;
    }
    proof {
        assert(r@.map_values(|n: u8| n as int) =~= v@.map_values(
            |n: u64| n as int,
        ));
    }
    r
}

/// The shared base metadata every container carries: title, identifier and
/// item counts, all optional on the wire.
#[derive(Debug)]
pub struct MediaContainer {
    pub size: Option<u64>,
    pub total_size: Option<u64>,
    pub title: Option<String>,
    pub identifier: Option<String>,
}

/// Whether the base metadata attributes of an element all resolve.
pub open spec fn mc_ok(a: Seq<RawAttr>) -> bool {
    &&& f_opt_unsigned(a, "size"@, u64::MAX as int) is Some
    &&& f_opt_unsigned(a, "totalSize"@, u64::MAX as int) is Some
    &&& f_opt_text(a, "title"@) is Some
    &&& f_opt_text(a, "identifier"@) is Some
}

/// Whether `m` is the base metadata that the attributes `a` resolve to.
pub open spec fn mc_matches(a: Seq<RawAttr>, m: MediaContainer) -> bool {
    &&& f_opt_unsigned(a, "size"@, u64::MAX as int) == Some(oint_u64(m.size))
    &&& f_opt_unsigned(a, "totalSize"@, u64::MAX as int) == Some(
        oint_u64(m.total_size),
    )
    &&& f_opt_text(a, "title"@) == Some(oview(m.title))
    &&& f_opt_text(a, "identifier"@) == Some(oview(m.identifier))
}

/// Decodes the shared base metadata of a container element.
pub fn decode_media_container(attrs: &Vec<RawAttr>) -> (r: Result<
    MediaContainer,
    LoadError,
>)
    ensures
        match r {
            Ok(m) => mc_ok(attrs@) && mc_matches(attrs@, m),
            Err(e) => !mc_ok(attrs@) && e.is_decode_failure(),
        },
{
    let size = opt_unsigned(attrs, "size", u64::MAX)?;
    let total_size = opt_unsigned(attrs, "totalSize", u64::MAX)?;
    let title = opt_text(attrs, "title")?;
    let identifier = opt_text(attrs, "identifier")?;
    Ok(MediaContainer { size, total_size, title, identifier })
}

} // verus!
