//! Calendar timestamps: turning an epoch timestamp with a timezone
//! offset into a calendar moment, through `chrono`.
//!
//! `chrono`'s datetime type is generic over a timezone trait, which
//! this environment cannot declare; each concrete instantiation the
//! library hands out is therefore held in an opaque wrapper struct.

use vstd::prelude::*;

use chrono::TimeZone;

verus! {

#[verifier::external_type_specification]
#[verifier::external_body]
pub struct ExFixedOffset(chrono::FixedOffset);

/// A calendar moment carrying its original fixed timezone offset.
#[verifier::external_body]
pub struct DateTimeFixed {
    /// The underlying chrono value.
    pub inner: chrono::DateTime<chrono::FixedOffset>,
}

/// A calendar moment in UTC.
#[verifier::external_body]
pub struct DateTimeUtc {
    /// The underlying chrono value.
    pub inner: chrono::DateTime<chrono::Utc>,
}

/// A calendar moment in the machine's local timezone.
#[verifier::external_body]
pub struct DateTimeLocal {
    /// The underlying chrono value.
    pub inner: chrono::DateTime<chrono::Local>,
}

impl DateTimeFixed {
    /// Relies on chrono's rendering of a datetime.
    #[verifier::external_body]
    pub fn display_string(&self) -> String {
        self.inner.to_string()
    }
}

impl DateTimeUtc {
    /// Relies on chrono's rendering of a datetime.
    #[verifier::external_body]
    pub fn display_string(&self) -> String {
        self.inner.to_string()
    }
}

impl DateTimeLocal {
    /// Relies on chrono's rendering of a datetime.
    #[verifier::external_body]
    pub fn display_string(&self) -> String {
        self.inner.to_string()
    }
}

/// Relies on chrono::FixedOffset::east_opt: accepts exactly the offsets
/// strictly inside one day, rejecting every other value.
#[verifier::external_body]
fn fixed_offset_east(secs: i32) -> (r: Option<chrono::FixedOffset>)
    ensures
        (r is Some) == (-86400 < secs < 86400),
{
    chrono::FixedOffset::east_opt(secs)
}

/// Relies on chrono::TimeZone::timestamp_opt, whose mapping is never
/// ambiguous on a fixed offset, and on MappedLocalTime::single: the
/// moment `secs` after the epoch, or nothing when the moment lies
/// outside chrono's representable range.
#[verifier::external_body]
fn timestamp_at_offset(offset: &chrono::FixedOffset, secs: i64) -> Option<DateTimeFixed> {
    match offset.timestamp_opt(secs, 0).single() {
        Some(dt) => Some(DateTimeFixed { inner: dt }),
        None => None,
    }
}

/// Relies on chrono::DateTime::with_timezone: the same moment, viewed
/// in UTC.
#[verifier::external_body]
pub(crate) fn with_utc(dt: &DateTimeFixed) -> DateTimeUtc {
    DateTimeUtc { inner: dt.inner.with_timezone(&chrono::Utc) }
}

/// Relies on chrono::DateTime::with_timezone: the same moment, viewed
/// in the machine's local timezone.
#[verifier::external_body]
pub(crate) fn with_local(dt: &DateTimeFixed) -> DateTimeLocal {
    DateTimeLocal { inner: dt.inner.with_timezone(&chrono::Local) }
}

/// Turns `(seconds since the epoch, timezone offset in minutes)` into a
/// calendar moment carrying that offset. Returns nothing when the
/// offset does not fit inside one day or the moment is not
/// representable.
pub fn datetime_from_epoch(seconds: i64, offset_minutes: i32) -> (r: Option<DateTimeFixed>)
    ensures
        (offset_minutes <= -1440 || offset_minutes >= 1440) ==> r is None,
{
    let offset_secs = match offset_minutes.checked_mul(60) {
        Some(s) => s,
        None => {
            return None;
        },
    };
    let offset = match fixed_offset_east(offset_secs) {
        Some(o) => o,
        None => {
            return None;
        },
    };
    timestamp_at_offset(&offset, seconds)
}

} // verus!
