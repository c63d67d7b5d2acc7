use vstd::prelude::*;

verus! {

/// The RFC 3339 text of the instant `secs` seconds and `nanos`
/// nanoseconds after the Unix epoch, in UTC with a `Z` suffix and as many
/// fractional digits as the nanoseconds need; none where the instant lies
/// outside the supported range.
pub uninterp spec fn rfc3339_text(secs: int, nanos: int) -> Option<Seq<char>>;

/// The instant, as seconds since the Unix epoch and nanoseconds, that an
/// RFC 3339 text denotes; none where the text is not RFC 3339.
pub uninterp spec fn rfc3339_instant(s: Seq<char>) -> Option<(int, int)>;

/// Relies on chrono's `DateTime::<Utc>::from_timestamp`, which gives no
/// value outside its supported range, and on `to_rfc3339_opts` with
/// `SecondsFormat::AutoSi` and `Z` for UTC, the text that chrono's serde
/// support writes for a `DateTime<Utc>`.
#[verifier::external_body]
fn utc_rfc3339(secs: i64, nanos: u32) -> (r: Option<String>)
    ensures
        r matches Some(s) ==> rfc3339_text(secs as int, nanos as int) == Some(s@),
        r is None ==> rfc3339_text(secs as int, nanos as int) is None,
{
    chrono::DateTime::<chrono::Utc>::from_timestamp(secs, nanos).map(
        |t| t.to_rfc3339_opts(chrono::SecondsFormat::AutoSi, true),
    )
}

/// Relies on chrono's `DateTime::parse_from_rfc3339`, read out with
/// `timestamp` and `timestamp_subsec_nanos` (the instant, whatever the
/// offset in the text).
#[verifier::external_body]
fn parse_rfc3339(s: &str) -> (r: Option<(i64, u32)>)
    ensures
        r matches Some(p) ==> rfc3339_instant(s@) == Some((p.0 as int, p.1 as int)),
        r is None ==> rfc3339_instant(s@) is None,
{
    chrono::DateTime::parse_from_rfc3339(s).ok().map(
        |t| (t.timestamp(), t.timestamp_subsec_nanos()),
    )
}

/// An instant in UTC, as seconds and nanoseconds since the Unix epoch.
/// Every value has an RFC 3339 text.
#[derive(Debug, Clone, Copy, PartialEq, Eq, Structural)]
pub struct Timestamp {
    secs: i64,
    nanos: u32,
}

/// Whether an instant has an RFC 3339 text.
pub open spec fn representable(secs: int, nanos: int) -> bool {
    rfc3339_text(secs, nanos) is Some
}

/// The RFC 3339 text of a timestamp.
pub open spec fn timestamp_text(t: Timestamp) -> Seq<char> {
    match rfc3339_text(t@.0, t@.1) {
        Some(s) => s,
        None => Seq::empty(),
    }
}

impl View for Timestamp {
    type V = (int, int);

    closed spec fn view(&self) -> (int, int) {
        (self.secs as int, self.nanos as int)
    }
}

impl Timestamp {
    #[verifier::type_invariant]
    spec fn inv(self) -> bool {
        representable(self.secs as int, self.nanos as int)
    }

    /// The timestamp `secs` seconds and `nanos` nanoseconds after the Unix
    /// epoch; none where that instant has no RFC 3339 text.
    pub fn from_unix(secs: i64, nanos: u32) -> (r: Option<Timestamp>)
        ensures
            r is Some <==> representable(secs as int, nanos as int),
            r matches Some(t) ==> t@ == (secs as int, nanos as int),
    {
        match utc_rfc3339(secs, nanos) {
            Some(_) => Some(Timestamp { secs, nanos }),
            None => None,
        }
    }

    /// Reads an RFC 3339 text.
    pub fn parse(s: &str) -> (r: Option<Timestamp>)
        ensures
            r is Some <==> (rfc3339_instant(s@) matches Some(p) && representable(p.0, p.1)),
            r matches Some(t) ==> rfc3339_instant(s@) == Some(t@),
    {
        match parse_rfc3339(s) {
            Some((secs, nanos)) => Timestamp::from_unix(secs, nanos),
            None => None,
        }
    }

    /// Seconds since the Unix epoch.
    pub fn secs(&self) -> (r: i64)
        ensures
            r as int == self@.0,
    {
        self.secs
    }

    /// Nanoseconds past `secs`.
    pub fn nanos(&self) -> (r: u32)
        ensures
            r as int == self@.1,
    {
        self.nanos
    }

    /// The RFC 3339 text of this timestamp, in UTC.
    pub fn to_rfc3339(&self) -> (r: String)
        ensures
            r@ == timestamp_text(*self),
            rfc3339_text(self@.0, self@.1) == Some(r@),
    {
        proof {
            use_type_invariant(self);
        }
        match utc_rfc3339(self.secs, self.nanos) {
            Some(s) => s,
            None => String::new(),
        }
    }
}

} // verus!
