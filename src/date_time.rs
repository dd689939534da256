use vstd::prelude::*;

verus! {

/// Earliest instant, in milliseconds since the UNIX epoch, that chrono can
/// represent: the first of January of the year -262143.
pub const MIN_MILLIS: i64 = -8334601315200000;

/// Latest instant, in milliseconds since the UNIX epoch, that chrono can
/// represent: the last millisecond of the year 262142.
pub const MAX_MILLIS: i64 = 8210266876799999;

pub open spec fn in_chrono_range(millis: i64) -> bool {
    MIN_MILLIS <= millis <= MAX_MILLIS
}

/// RFC 3339 text of an instant, with milliseconds and a `Z` suffix.
pub uninterp spec fn rfc3339_millis_of(millis: i64) -> Seq<char>;

/// What chrono reads from RFC 3339 text: the instant in whole milliseconds and
/// the sub-second part in nanoseconds, or `None` when the text is rejected.
pub uninterp spec fn rfc3339_parse_of(s: Seq<char>) -> Option<(i64, u32)>;

/// Relies on `chrono::Utc::now`, read in whole milliseconds by
/// `timestamp_millis`: every chrono instant lies in its range.
#[verifier::external_body]
fn now_millis() -> (r: i64)
    ensures
        in_chrono_range(r),
{
    chrono::Utc::now().timestamp_millis()
}

/// Relies on `chrono::DateTime::from_timestamp_millis`, which is `Some` on the
/// range of chrono, and `to_rfc3339_opts(SecondsFormat::Millis, true)`.
#[verifier::external_body]
fn format_rfc3339_millis(millis: i64) -> (r: String)
    requires
        in_chrono_range(millis),
    ensures
        r@ == rfc3339_millis_of(millis),
{
    chrono::DateTime::from_timestamp_millis(millis).unwrap().to_rfc3339_opts(
        chrono::SecondsFormat::Millis,
        true,
    )
}

/// Relies on `chrono::DateTime::parse_from_rfc3339`, converted to UTC and read by
/// `timestamp_millis` and `timestamp_subsec_nanos`. A parsed instant lies in the
/// range of chrono, and its nanoseconds stay under two seconds (a leap second
/// counts past one).
#[verifier::external_body]
fn parse_rfc3339(s: &str) -> (r: Option<(i64, u32)>)
    ensures
        r == rfc3339_parse_of(s@),
        r matches Some((millis, nanos)) ==> in_chrono_range(millis) && nanos < 2_000_000_000,
{
    match chrono::DateTime::parse_from_rfc3339(s) {
        Ok(parsed) => {
            let utc = parsed.to_utc();
            Some((utc.timestamp_millis(), utc.timestamp_subsec_nanos()))
        },
        Err(_) => None,
    }
}

/// Text that is not an RFC 3339 instant, or one finer than milliseconds.
#[derive(Debug)]
pub struct DateTimeError {
    pub reason: DateTimeErrorReason,
}

#[derive(Clone, Copy, Debug, PartialEq, Eq, Structural)]
pub enum DateTimeErrorReason {
    NotRfc3339,
    FinerThanMillis,
}

impl DateTimeError {
    pub fn to_string(&self) -> (r: String)
        ensures
            r@ == "date time error"@,
    {
        String::from_str("date time error")
    }
}

/// An instant as a UNIX timestamp in milliseconds.
#[derive(Clone, Copy, Debug, PartialEq, Eq, Structural, PartialOrd, Ord, Hash)]
pub struct DateTime(i64);

impl View for DateTime {
    type V = i64;

    closed spec fn view(&self) -> i64 {
        self.0
    }
}

/// The outcome of reading an instant from what chrono parsed: the parsed
/// millisecond, unless the text carried digits below the millisecond.
pub open spec fn date_time_from_parsed(parsed: Option<(i64, u32)>) -> Option<i64> {
    match parsed {
        Some((millis, nanos)) => if nanos % 1_000_000 == 0 {
            Some(millis)
        } else {
            None
        },
        None => None,
    }
}

impl DateTime {
    pub fn from_unix_timestamp_millis(unix_timestamp_millis: i64) -> (r: Self)
        ensures
            r@ == unix_timestamp_millis,
    {
        DateTime(unix_timestamp_millis)
    }

    /// The current instant, truncated to the millisecond.
    pub fn now() -> (r: Self)
        ensures
            in_chrono_range(r@),
    {
        DateTime(now_millis())
    }

    pub fn to_unix_timestamp_millis(&self) -> (r: i64)
        ensures
            r == self@,
    {
        self.0
    }

    /// RFC 3339 text in UTC with milliseconds, such as `1970-01-01T00:00:01.000Z`.
    pub fn to_string(&self) -> (r: String)
        requires
            in_chrono_range(self@),
        ensures
            r@ == rfc3339_millis_of(self@),
    {
        format_rfc3339_millis(self.0)
    }

    /// Reads an instant from RFC 3339 text in any offset; an instant with digits
    /// below the millisecond is refused.
    pub fn from_str(s: &str) -> (r: Result<Self, DateTimeError>)
        ensures
            match date_time_from_parsed(rfc3339_parse_of(s@)) {
                Some(millis) => r is Ok && r->Ok_0@ == millis,
                None => r is Err,
            },
    {
        DateTime::from_parsed(parse_rfc3339(s))
    }

    /// Finishes reading an instant from the millisecond and nanosecond parts
    /// that chrono parsed (`None` for text it rejected).
    pub fn from_parsed(parsed: Option<(i64, u32)>) -> (r: Result<Self, DateTimeError>)
        ensures
            match date_time_from_parsed(parsed) {
                Some(millis) => r is Ok && r->Ok_0@ == millis,
                None => r is Err,
            },
            r is Err && parsed is Some ==> r->Err_0.reason == DateTimeErrorReason::FinerThanMillis,
            parsed is None ==> r is Err && r->Err_0.reason == DateTimeErrorReason::NotRfc3339,
    {
        match parsed {
            Some((millis, nanos)) => {
                if nanos % 1_000_000 == 0 {
                    Ok(DateTime(millis))
                } else {
                    Err(DateTimeError { reason: DateTimeErrorReason::FinerThanMillis })
                }
            },
            None => Err(DateTimeError { reason: DateTimeErrorReason::NotRfc3339 }),
        }
    }
}

impl From<i64> for DateTime {
    fn from(unix_timestamp_millis: i64) -> (r: Self)
        ensures
            r@ == unix_timestamp_millis,
    {
        DateTime::from_unix_timestamp_millis(unix_timestamp_millis)
    }
}

impl vstd::std_specs::convert::FromSpecImpl<i64> for DateTime {
    open spec fn obeys_from_spec() -> bool {
        true
    }

    closed spec fn from_spec(v: i64) -> DateTime {
        DateTime(v)
    }
}

impl From<DateTime> for i64 {
    fn from(value: DateTime) -> (r: i64)
        ensures
            r == value@,
    {
        value.to_unix_timestamp_millis()
    }
}

impl vstd::std_specs::convert::FromSpecImpl<DateTime> for i64 {
    open spec fn obeys_from_spec() -> bool {
        true
    }

    closed spec fn from_spec(v: DateTime) -> i64 {
        v.0
    }
}

impl core::str::FromStr for DateTime {
    type Err = DateTimeError;

    fn from_str(s: &str) -> Result<Self, DateTimeError> {
        DateTime::from_str(s)
    }
}

} // verus!
