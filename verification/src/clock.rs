//! Wall-clock readings and calendar dates (the `time` crate and std's clock).
use vstd::prelude::*;

verus! {

/// The Unix timestamps that `time` can turn into a date with its default
/// year range `-9999..=9999`: from `-9999-01-01T00:00:00Z` to
/// `9999-12-31T23:59:59Z`.
pub open spec fn in_date_range(ts: int) -> bool {
    -377705116800 <= ts <= 253402300799
}

/// `OffsetDateTime::now_utc().unix_timestamp()`: the current time in seconds
/// since the Unix epoch.  The reading depends on the machine's clock; what
/// holds of every reading is that it lies within the years `time` can
/// represent (at most 999 999 years from year zero in either direction even
/// with its `large-dates` feature), so well within `2^45` seconds of the
/// epoch.
#[verifier::external_body]
pub(crate) fn now_unix_utc() -> (res: i64)
    ensures
        -0x2000_0000_0000 < res < 0x2000_0000_0000,
{
    time::OffsetDateTime::now_utc().unix_timestamp()
}

/// The calendar date (UTC) of a Unix timestamp, as `Date`'s `Display` of the
/// `time` crate writes it (`YYYY-MM-DD`).
pub uninterp spec fn utc_date_of(ts: int) -> Seq<char>;

/// `OffsetDateTime::from_unix_timestamp(ts)?.date().to_string()` of `time`.
#[verifier::external_body]
pub(crate) fn utc_date_text(ts: i64) -> (res: String)
    requires
        in_date_range(ts as int),
    ensures
        res@ == utc_date_of(ts as int),
{
    match time::OffsetDateTime::from_unix_timestamp(ts) {
        Ok(t) => t.date().to_string(),
        Err(_) => String::new(),
    }
}

/// `SystemTime::now().duration_since(UNIX_EPOCH)` in whole seconds; `None`
/// when the clock reads a time before the epoch.  Nothing is stated of the
/// reading itself.
#[verifier::external_body]
pub(crate) fn system_epoch_secs() -> (res: Option<u64>)
{
    match std::time::SystemTime::now().duration_since(std::time::UNIX_EPOCH) {
        Ok(d) => Some(d.as_secs()),
        Err(_) => None,
    }
}

} // verus!
