//! The scalar value kinds and their coercion rules: each kind owns a single
//! pure coercion from raw text, and fails with a `CoercionError` naming the
//! kind and the offending text.

use vstd::prelude::*;
use crate::errors::{ErrorV, ParseError};
use crate::strutil::{chars_of, find_char_from, find_from, str_eq_str};

verus! {

/// Whether `c` is a decimal digit.
pub open spec fn is_digit(c: char) -> bool {
    '0' <= c && c <= '9'
}

/// The numeric value of a digit character.
pub open spec fn digit_val(c: char) -> int {
    c as u32 - '0' as u32
}

/// Whether every character of `s` is a decimal digit.
pub open spec fn all_digits(s: Seq<char>) -> bool {
    forall|i: int| 0 <= i < s.len() ==> is_digit(s[i])
}

/// The value of `s` read as a decimal numeral.
pub open spec fn digits_val(s: Seq<char>) -> int
    decreases s.len(),
{
    if s.len() == 0 {
        0
    } else {
        digits_val(s.drop_last()) * 10 + digit_val(s.last())
    }
}

/// Decimal coercion to an unsigned 32-bit value: the text must be a
/// non-empty run of digits whose value fits.
pub open spec fn spec_parse_u32(s: Seq<char>) -> Option<u32> {
    if s.len() > 0 && all_digits(s) && digits_val(s) <= u32::MAX {
        Some(digits_val(s) as u32)
    } else {
        None
    }
}

/// A numeral's value never shrinks as more digits are appended.
pub proof fn lemma_digits_val_mono(s: Seq<char>, k: int, j: int)
    requires
        0 <= k <= j <= s.len(),
        all_digits(s),
    ensures
        digits_val(s.subrange(0, k)) <= digits_val(s.subrange(0, j)),
        digits_val(s.subrange(0, j)) >= 0,
    decreases j - k,
{
    if k == j {
        lemma_digits_val_nonneg(s, j);
    } else {
        lemma_digits_val_mono(s, k, j - 1);
        lemma_digits_val_nonneg(s, j - 1);
        assert(s.subrange(0, j).drop_last() =~= s.subrange(0, j - 1));
    }
}

/// A numeral of digits has a non-negative value.
pub proof fn lemma_digits_val_nonneg(s: Seq<char>, j: int)
    requires
        0 <= j <= s.len(),
        all_digits(s),
    ensures
        digits_val(s.subrange(0, j)) >= 0,
    decreases j,
{
    if j > 0 {
        lemma_digits_val_nonneg(s, j - 1);
        assert(s.subrange(0, j).drop_last() =~= s.subrange(0, j - 1));
    }
}

/// Reads the characters of `v` between `a` and `b` as a decimal `u32`.
pub fn parse_u32_range(v: &Vec<char>, a: usize, b: usize) -> (r: Option<u32>)
    requires
        a <= b <= v@.len(),
    ensures
        r == spec_parse_u32(v@.subrange(a as int, b as int)),
{
    let ghost s = v@.subrange(a as int, b as int);
    if a == b {
        return None;
    }
    let mut acc: u64 = 0;
    let mut i: usize = a;
    while i < b
        invariant
            a <= i <= b <= v@.len(),
            s == v@.subrange(a as int, b as int),
            acc <= u32::MAX,
            all_digits(s.subrange(0, i - a)),
            acc == digits_val(s.subrange(0, i - a)),
        decreases b - i,
    {
        let c = v[i];
        if !(c >= '0' && c <= '9') {
            assert(s[i - a] == c);
            return None;
        }
        let d: u32 = c as u32 - '0' as u32;
        let wide: u64 = acc * 10 + d as u64;
        assert(s.subrange(0, i + 1 - a).drop_last() =~= s.subrange(0, i - a));
        assert(s.subrange(0, i + 1 - a).last() == c);
        if wide > u32::MAX as u64 {
            proof {
                let k = i + 1 - a;
                assert(digits_val(s.subrange(0, k)) > u32::MAX);
                if all_digits(s) {
                    lemma_digits_val_mono(s, k, s.len() as int);
                    assert(s.subrange(0, s.len() as int) =~= s);
                }
            }
            return None;
        }
        acc = wide;
        i = i + 1;
    }
    assert(s.subrange(0, b - a) =~= s);
    Some(acc as u32)
}

/// Reads a whole string slice as a decimal `u32`.
pub fn parse_u32_str(t: &str) -> (r: Option<u32>)
    ensures
        r == spec_parse_u32(t@),
{
    let v = chars_of(t);
    let n = v.len();
    let r = parse_u32_range(&v, 0, n);
    assert(v@.subrange(0, n as int) =~= t@);
    r
}

/// A `major.minor.patch` version numeral: three dot-separated decimal
/// `u32` numerals and nothing else.
pub open spec fn spec_parse_version_triple(s: Seq<char>) -> Option<(u32, u32, u32)> {
    match find_from(s, '.', 0) {
        None => None,
        Some(d1) => match find_from(s, '.', d1 + 1) {
            None => None,
            Some(d2) => match spec_parse_u32(s.subrange(0, d1)) {
                None => None,
                Some(a) => match spec_parse_u32(s.subrange(d1 + 1, d2)) {
                    None => None,
                    Some(b) => match spec_parse_u32(s.subrange(d2 + 1, s.len() as int)) {
                        None => None,
                        Some(c) => Some((a, b, c)),
                    },
                },
            },
        },
    }
}

/// Reads a whole string slice as a `major.minor.patch` triple.
pub fn parse_version_triple(t: &str) -> (r: Option<(u32, u32, u32)>)
    ensures
        r == spec_parse_version_triple(t@),
{
    let v = chars_of(t);
    let n = v.len();
    match find_char_from(&v, '.', 0) {
        None => None,
        Some(d1) => match find_char_from(&v, '.', d1 + 1) {
            None => None,
            Some(d2) => {
                let p1 = parse_u32_range(&v, 0, d1);
                let p2 = parse_u32_range(&v, d1 + 1, d2);
                let p3 = parse_u32_range(&v, d2 + 1, n);
                match (p1, p2, p3) {
                    (Some(a), Some(b), Some(c)) => Some((a, b, c)),
                    _ => None,
                }
            },
        },
    }
}

/// An unsigned 32-bit integer scalar.
#[derive(Clone, Copy, PartialEq, Eq, Structural, Debug)]
pub struct Integer(pub u32);

impl View for Integer {
    type V = u32;

    open spec fn view(&self) -> u32 {
        self.0
    }
}

impl Integer {
    /// Coerces decimal text to an `Integer`.
    pub fn from_stream(stream: &str) -> (r: Result<Integer, ParseError>)
        ensures
            match spec_parse_u32(stream@) {
                Some(n) => r == Ok::<Integer, ParseError>(Integer(n)),
                None => r matches Err(e) && e@ == (ErrorV::CoercionError {
                    kind: "Integer"@,
                    text: stream@,
                }),
            },
    {
        match parse_u32_str(stream) {
            Some(n) => Ok(Integer(n)),
            None => Err(
                ParseError::CoercionError { kind: "Integer".to_owned(), text: stream.to_owned() },
            ),
        }
    }
}

/// A UTF-8 text scalar.
#[derive(PartialEq, Eq, Debug)]
pub struct Text(pub String);

impl View for Text {
    type V = Seq<char>;

    open spec fn view(&self) -> Seq<char> {
        self.0@
    }
}

impl Clone for Text {
    fn clone(&self) -> (r: Self)
        ensures
            r == *self,
    {
        Text(self.0.clone())
    }
}

impl Text {
    /// Coerces raw text to a `Text`; this never fails.
    pub fn from_stream(stream: &str) -> (r: Result<Text, ParseError>)
        ensures
            r matches Ok(t) && t@ == stream@,
    {
        Ok(Text(stream.to_owned()))
    }
}

/// Case-sensitive boolean coercion: exactly `true` or `false`.
pub open spec fn spec_parse_bool(s: Seq<char>) -> Option<bool> {
    if s == "true"@ {
        Some(true)
    } else if s == "false"@ {
        Some(false)
    } else {
        None
    }
}

/// A boolean scalar.
#[derive(Clone, Copy, PartialEq, Eq, Structural, Debug)]
pub struct Boolean(pub bool);

impl View for Boolean {
    type V = bool;

    open spec fn view(&self) -> bool {
        self.0
    }
}

impl Boolean {
    /// Coerces the exact keywords `true` / `false` to a `Boolean`.
    pub fn from_stream(stream: &str) -> (r: Result<Boolean, ParseError>)
        ensures
            match spec_parse_bool(stream@) {
                Some(b) => r == Ok::<Boolean, ParseError>(Boolean(b)),
                None => r matches Err(e) && e@ == (ErrorV::CoercionError {
                    kind: "Boolean"@,
                    text: stream@,
                }),
            },
    {
        if str_eq_str(stream, "true") {
            Ok(Boolean(true))
        } else if str_eq_str(stream, "false") {
            Ok(Boolean(false))
        } else {
            Err(ParseError::CoercionError { kind: "Boolean".to_owned(), text: stream.to_owned() })
        }
    }
}

/// The instant a naive date-time text denotes, as whole seconds since the
/// Unix epoch together with the sub-second nanoseconds, if the text parses.
pub uninterp spec fn timestamp_of(s: Seq<char>) -> Option<(i64, u32)>;

/// Relies on `chrono::NaiveDateTime`'s `FromStr` (the `%Y-%m-%dT%H:%M:%S%.f`
/// format) and on `NaiveDateTime::and_utc().timestamp()` /
/// `timestamp_subsec_nanos()`: whether the text parses, and the instant it
/// denotes, depend on the text alone.
#[verifier::external_body]
fn parse_timestamp_raw(s: &str) -> (r: Option<(i64, u32)>)
    ensures
        r == timestamp_of(s@),
{
    match <chrono::NaiveDateTime as core::str::FromStr>::from_str(s) {
        Ok(dt) => Some((dt.and_utc().timestamp(), dt.and_utc().timestamp_subsec_nanos())),
        Err(_) => None,
    }
}

/// A timestamp scalar: a naive date-time, held as whole seconds since the
/// Unix epoch plus sub-second nanoseconds.
#[derive(Clone, Copy, PartialEq, Eq, Structural, Debug)]
pub struct DateTime {
    pub secs: i64,
    pub nanos: u32,
}

impl DateTime {
    /// Builds a timestamp from its two components.
    pub fn new(secs: i64, nanos: u32) -> (r: DateTime)
        ensures
            r == (DateTime { secs, nanos }),
    {
        DateTime { secs, nanos }
    }

    /// Coerces naive date-time text to a `DateTime`.
    pub fn from_stream(stream: &str) -> (r: Result<DateTime, ParseError>)
        ensures
            match timestamp_of(stream@) {
                Some(t) => r == Ok::<DateTime, ParseError>(DateTime { secs: t.0, nanos: t.1 }),
                None => r matches Err(e) && e@ == (ErrorV::CoercionError {
                    kind: "Timestamp"@,
                    text: stream@,
                }),
            },
    {
        match parse_timestamp_raw(stream) {
            Some(t) => Ok(DateTime { secs: t.0, nanos: t.1 }),
            None => Err(
                ParseError::CoercionError { kind: "Timestamp".to_owned(), text: stream.to_owned() },
            ),
        }
    }
}

/// The normalized serialization of an absolute URL text, if it parses.
pub uninterp spec fn uri_normal_of(s: Seq<char>) -> Option<Seq<char>>;

/// Relies on `url::Url::parse` and `From<Url> for String`: whether text
/// parses as an absolute URL, and its normalized serialization, depend on
/// the text alone.
#[verifier::external_body]
fn parse_uri_raw(s: &str) -> (r: Option<String>)
    ensures
        r matches Some(t) ==> uri_normal_of(s@) == Some(t@),
        r is Some <==> uri_normal_of(s@) is Some,
{
    match url::Url::parse(s) {
        Ok(u) => Some(String::from(u)),
        Err(_) => None,
    }
}

/// A URI scalar: the normalized serialization of an absolute URL.
#[derive(PartialEq, Eq, Debug)]
pub struct Uri(pub Text);

impl View for Uri {
    type V = Seq<char>;

    open spec fn view(&self) -> Seq<char> {
        self.0@
    }
}

impl Clone for Uri {
    fn clone(&self) -> (r: Self)
        ensures
            r == *self,
    {
        Uri(self.0.clone())
    }
}

impl Default for Uri {
    /// The URI used when a record leaves its URI field unset: the
    /// normalized form of `http://localhost`, exactly what coercing that
    /// text yields.
    fn default() -> (r: Self)
        ensures
            r@ == "http://localhost/"@,
    {
        Uri(Text("http://localhost/".to_owned()))
    }
}

impl Uri {
    /// Wraps an already normalized URL text.
    pub fn new(value: Text) -> (r: Uri)
        ensures
            r == Uri(value),
    {
        Uri(value)
    }

    /// Coerces URL text to a `Uri`, normalizing it.
    pub fn from_stream(stream: &str) -> (r: Result<Uri, ParseError>)
        ensures
            match uri_normal_of(stream@) {
                Some(t) => r matches Ok(u) && u@ == t,
                None => r matches Err(e) && e@ == (ErrorV::CoercionError {
                    kind: "Uri"@,
                    text: stream@,
                }),
            },
    {
        match parse_uri_raw(stream) {
            Some(t) => Ok(Uri(Text(t))),
            None => Err(
                ParseError::CoercionError { kind: "Uri".to_owned(), text: stream.to_owned() },
            ),
        }
    }
}

} // verus!
