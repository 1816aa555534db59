use vstd::prelude::*;

verus! {

/// 0000-01-01T00:00:00Z, in seconds since the Unix epoch.
pub const MIN_TIMESTAMP_SECS: i64 = -62167219200;

/// 9999-12-31T23:59:59Z, in seconds since the Unix epoch.
pub const MAX_TIMESTAMP_SECS: i64 = 253402300799;

/// One billion: the nanoseconds in a second.
pub const NANOS_PER_SEC: u32 = 1000000000;

/// An instant in UTC, as whole seconds since the Unix epoch and the
/// nanoseconds past that second. Years 0 to 9999 are representable, so
/// that every instant renders as an RFC 3339 timestamp; leap seconds are not.
#[derive(Clone, Copy, Debug)]
pub struct UtcTimestamp {
    secs: i64,
    nanos: u32,
}

/// Whether `secs` and `nanos` describe an instant that `UtcTimestamp` holds.
pub open spec fn valid_instant(secs: int, nanos: int) -> bool {
    MIN_TIMESTAMP_SECS <= secs <= MAX_TIMESTAMP_SECS && 0 <= nanos < NANOS_PER_SEC
}

impl UtcTimestamp {
    pub closed spec fn secs_spec(&self) -> int {
        self.secs as int
    }

    pub closed spec fn nanos_spec(&self) -> int {
        self.nanos as int
    }

    pub open spec fn wf(&self) -> bool {
        valid_instant(self.secs_spec(), self.nanos_spec())
    }

    /// The instant `secs` seconds and `nanos` nanoseconds after the Unix
    /// epoch, or `None` when it lies outside years 0 to 9999 or `nanos` is
    /// a second or more.
    pub fn new(secs: i64, nanos: u32) -> (r: Option<UtcTimestamp>)
        ensures
            r is Some <==> valid_instant(secs as int, nanos as int),
            r matches Some(t) ==> t.wf() && t.secs_spec() == secs && t.nanos_spec() == nanos,
    {
        if MIN_TIMESTAMP_SECS <= secs && secs <= MAX_TIMESTAMP_SECS && nanos < NANOS_PER_SEC {
            Some(UtcTimestamp { secs, nanos })
        } else {
            None
        }
    }

    pub fn secs(&self) -> (r: i64)
        ensures
            r == self.secs_spec(),
    {
        self.secs
    }

    pub fn nanos(&self) -> (r: u32)
        ensures
            r == self.nanos_spec(),
    {
        self.nanos
    }
}

/// The text that chrono's `Display` gives for the instant in UTC.
pub uninterp spec fn utc_display_of(secs: int, nanos: int) -> Seq<char>;

/// The RFC 3339 form of the instant in UTC, as chrono writes it with
/// automatic sub-second digits and `Z` for the offset.
pub uninterp spec fn utc_rfc3339_of(secs: int, nanos: int) -> Seq<char>;

/// Relies on `chrono::DateTime::<Utc>`'s `Display` impl (through `to_string`)
/// to render the instant; `DateTime::from_timestamp` only converts, and
/// returns `Some` for every instant in the accepted range.
#[verifier::external_body]
fn display_utc(secs: i64, nanos: u32) -> (r: String)
    requires
        valid_instant(secs as int, nanos as int),
    ensures
        r@ == utc_display_of(secs as int, nanos as int),
{
    chrono::DateTime::from_timestamp(secs, nanos).unwrap().to_string()
}

/// Relies on `chrono::DateTime::to_rfc3339_opts` with `SecondsFormat::AutoSi`
/// and `use_z`, the form that chrono's serde support also writes;
/// `DateTime::from_timestamp` only converts, as in `display_utc`.
#[verifier::external_body]
fn rfc3339_utc(secs: i64, nanos: u32) -> (r: String)
    requires
        valid_instant(secs as int, nanos as int),
    ensures
        r@ == utc_rfc3339_of(secs as int, nanos as int),
{
    chrono::DateTime::from_timestamp(secs, nanos).unwrap().to_rfc3339_opts(
        chrono::SecondsFormat::AutoSi,
        true,
    )
}

impl UtcTimestamp {
    /// The instant as chrono displays it, for human-readable messages.
    pub fn display_text(&self) -> (r: String)
        requires
            self.wf(),
        ensures
            r@ == utc_display_of(self.secs_spec(), self.nanos_spec()),
    {
        display_utc(self.secs, self.nanos)
    }

    /// The instant in RFC 3339 form, for machine-readable payloads.
    pub fn rfc3339_text(&self) -> (r: String)
        requires
            self.wf(),
        ensures
            r@ == utc_rfc3339_of(self.secs_spec(), self.nanos_spec()),
    {
        rfc3339_utc(self.secs, self.nanos)
    }
}

} // verus!
