//! The rate-limit fields of a response: where they stand in the header map
//! and how their values are read.
//!
//! The upstream service reports its budget in three headers. Each is read
//! defensively: a field that is absent or does not hold a number is read as
//! zero, so that a malformed count is never taken for budget.

use crate::decimal::{parse_u32, parse_u64, unsigned_value};
use reqwest::header::{HeaderMap, HeaderValue};
use vstd::prelude::*;

verus! {

/// `http::HeaderMap`, the multimap of header names to values that a response
/// carries. Opaque here: its content is spoken of through [`header_fields`].
#[verifier::external_type_specification]
#[verifier::external_body]
#[verifier::reject_recursive_types(T)]
pub struct ExHeaderMap<T>(HeaderMap<T>);

/// `http::HeaderValue`, the raw bytes of one header value. Opaque here.
#[verifier::external_type_specification]
#[verifier::external_body]
pub struct ExHeaderValue(HeaderValue);

/// What a header map holds, as far as a lookup by name can tell: each header
/// name present (names are stored in ASCII lower case), mapped to the bytes of
/// the first value stored under it.
pub uninterp spec fn header_fields(headers: HeaderMap<HeaderValue>) -> Map<Seq<char>, Seq<u8>>;

/// A header name as the map stores it: ASCII upper-case letters folded to
/// lower case, every other character unchanged.
pub open spec fn ascii_lower(name: Seq<char>) -> Seq<char> {
    name.map_values(|c: char| if 'A' <= c <= 'Z' { ((c as u8) + 32) as char } else { c })
}

/// The bytes of the first value that `headers` holds under `name`, if any.
///
/// Calls `HeaderMap::get` with a string key and copies the bytes of the value
/// found (`HeaderValue::as_bytes`). Trusted: `get` compares names without
/// regard to ASCII case, returns the first of several values stored under one
/// name, and `None` when nothing is stored under it (an invalid name included).
#[verifier::external_body]
pub(crate) fn first_value(headers: &HeaderMap<HeaderValue>, name: &str) -> (r: Option<Vec<u8>>)
    ensures
        match r {
            Some(value) => field(header_fields(*headers), ascii_lower(name@)) == Some(value@),
            None => field(header_fields(*headers), ascii_lower(name@)) is None,
        },
{
    headers.get(name).map(|v| v.as_bytes().to_vec())
}

/// Name of the header that carries the number of requests allowed per window.
pub const LIMIT: &'static str = "x-ratelimit-limit";

/// Name of the header that carries the number of requests still allowed in
/// the current window.
pub const REMAINING: &'static str = "x-ratelimit-remaining";

/// Name of the header that carries the seconds to wait before the next request.
pub const RETRY_AFTER: &'static str = "retry-after";

/// The three header names are stored as they are written here.
pub proof fn lemma_names_are_lower_case()
    ensures
        ascii_lower(LIMIT@) == LIMIT@,
        ascii_lower(REMAINING@) == REMAINING@,
        ascii_lower(RETRY_AFTER@) == RETRY_AFTER@,
{
    reveal_strlit("x-ratelimit-limit");
    reveal_strlit("x-ratelimit-remaining");
    reveal_strlit("retry-after");
    assert(ascii_lower(LIMIT@) =~= LIMIT@);
    assert(ascii_lower(REMAINING@) =~= REMAINING@);
    assert(ascii_lower(RETRY_AFTER@) =~= RETRY_AFTER@);
}

/// The value that `fields` holds under the stored name `name`, if any.
pub open spec fn field(fields: Map<Seq<char>, Seq<u8>>, name: Seq<char>) -> Option<Seq<u8>> {
    if fields.contains_key(name) {
        Some(fields[name])
    } else {
        None
    }
}

/// The request count that a field reports: its value where it holds a
/// decimal numeral that fits 32 bits, and zero where the field is absent or
/// holds anything else.
pub open spec fn count_of(value: Option<Seq<u8>>) -> nat {
    match value {
        Some(bytes) => match unsigned_value(bytes, u32::MAX as nat) {
            Some(n) => n,
            None => 0,
        },
        None => 0,
    }
}

/// The back-off, in seconds, that the `retry-after` field reports: its value
/// where it holds a decimal numeral that fits 64 bits, and zero, which stands
/// for no back-off, where the field is absent or holds anything else (a date,
/// say).
pub open spec fn back_off_of(value: Option<Seq<u8>>) -> nat {
    match value {
        Some(bytes) => match unsigned_value(bytes, u64::MAX as nat) {
            Some(n) => n,
            None => 0,
        },
        None => 0,
    }
}

/// The budget that a response reports in its headers.
#[derive(Clone, Copy, Debug, PartialEq, Eq, Structural)]
pub struct RateHeaders {
    /// Requests allowed per window.
    pub limit: u32,
    /// Requests still allowed in the current window.
    pub remaining: u32,
    /// Seconds to wait before the next request; zero for no back-off.
    pub retry_after: u64,
}

/// The values of an optional field, as a mathematical value.
pub open spec fn bytes_of(value: Option<&[u8]>) -> Option<Seq<u8>> {
    match value {
        Some(bytes) => Some(bytes@),
        None => None,
    }
}

/// The budget that the three fields report, each given by its value.
pub open spec fn rate_headers_of(
    limit: Option<Seq<u8>>,
    remaining: Option<Seq<u8>>,
    retry_after: Option<Seq<u8>>,
) -> RateHeaders {
    RateHeaders {
        limit: count_of(limit) as u32,
        remaining: count_of(remaining) as u32,
        retry_after: back_off_of(retry_after) as u64,
    }
}

/// The budget that the fields of a header map report.
pub open spec fn rate_headers(fields: Map<Seq<char>, Seq<u8>>) -> RateHeaders {
    rate_headers_of(field(fields, LIMIT@), field(fields, REMAINING@), field(fields, RETRY_AFTER@))
}

/// Reads a request count from the value of its field, `None` standing for a
/// field that is absent.
pub fn read_count(value: Option<&[u8]>) -> (r: u32)
    ensures
        r == count_of(bytes_of(value)),
{
    match value {
        None => 0,
        Some(bytes) => match parse_u32(bytes) {
            Some(n) => n,
            None => 0,
        },
    }
}

/// Reads the back-off from the value of the `retry-after` field, `None`
/// standing for a field that is absent.
pub fn read_back_off(value: Option<&[u8]>) -> (r: u64)
    ensures
        r == back_off_of(bytes_of(value)),
{
    match value {
        None => 0,
        Some(bytes) => match parse_u64(bytes) {
            Some(n) => n,
            None => 0,
        },
    }
}

/// A borrowed view of an optional value.
fn borrowed(value: &Option<Vec<u8>>) -> (r: Option<&[u8]>)
    ensures
        r is Some <==> value is Some,
        r matches Some(bytes) ==> bytes@ == value->0@,
{
    match value {
        Some(bytes) => Some(bytes.as_slice()),
        None => None,
    }
}

impl RateHeaders {
    /// The budget that the three fields report, each given by its value,
    /// `None` standing for a field that is absent.
    pub fn from_values(
        limit: Option<&[u8]>,
        remaining: Option<&[u8]>,
        retry_after: Option<&[u8]>,
    ) -> (r: RateHeaders)
        ensures
            r == rate_headers_of(bytes_of(limit), bytes_of(remaining), bytes_of(retry_after)),
    {
        RateHeaders {
            limit: read_count(limit),
            remaining: read_count(remaining),
            retry_after: read_back_off(retry_after),
        }
    }

    /// Reads the three rate-limit fields of `headers`.
    pub fn read(headers: &HeaderMap<HeaderValue>) -> (r: RateHeaders)
        ensures
            r == rate_headers(header_fields(*headers)),
    {
        proof {
            lemma_names_are_lower_case();
        }
        let limit = first_value(headers, LIMIT);
        let remaining = first_value(headers, REMAINING);
        let retry_after = first_value(headers, RETRY_AFTER);
        RateHeaders::from_values(borrowed(&limit), borrowed(&remaining), borrowed(&retry_after))
    }
}

/// Fail-safe on a malformed signal: a field that is absent or holds no
/// number is read as zero. A count so read is never taken for budget, and a
/// back-off so read is no back-off.
pub proof fn lemma_unreadable_field_is_zero(value: Option<Seq<u8>>)
    ensures
        (value matches Some(bytes) ==> unsigned_value(bytes, u32::MAX as nat) is None)
            ==> count_of(value) == 0,
        (value matches Some(bytes) ==> unsigned_value(bytes, u64::MAX as nat) is None)
            ==> back_off_of(value) == 0,
{
}

} // verus!
