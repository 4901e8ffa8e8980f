//! Wall-clock instants, and the text `chrono` prints for them.

use vstd::prelude::*;

verus! {

/// The text that `chrono` prints for the UTC instant that lies `secs` whole
/// seconds after 1970-01-01 00:00:00 UTC and `nanos` nanoseconds into that
/// second, or `None` where `chrono` cannot represent that instant.
pub uninterp spec fn utc_text(secs: int, nanos: int) -> Option<Seq<char>>;

/// The view of an optional string.
pub open spec fn text_of(text: Option<String>) -> Option<Seq<char>> {
    match text {
        Some(s) => Some(s@),
        None => None,
    }
}

/// Reads the system clock through `chrono::Utc::now` and takes the instant
/// apart with `timestamp` and `timestamp_subsec_nanos`.
///
/// Claimed: the two numbers stand for an instant that `chrono` can
/// represent, as `from_timestamp` is documented to give back every instant
/// from these two numbers. Nothing is claimed of which instant it is.
/// `chrono` panics where the system clock stands before 1970.
#[verifier::external_body]
fn utc_now() -> (now: (i64, u32))
    ensures
        utc_text(now.0 as int, now.1 as int) is Some,
{
    let now = chrono::Utc::now();
    (now.timestamp(), now.timestamp_subsec_nanos())
}

/// Builds the instant with `chrono::DateTime::from_timestamp` and prints it
/// through its `Display` impl, as in `2015-05-15 00:00:00 UTC`.
///
/// Claimed: the outcome is a function of `secs` and `nanos` alone, named
/// [`utc_text`]; it is `None` exactly where `from_timestamp` refuses the
/// two numbers.
#[verifier::external_body]
fn format_utc(secs: i64, nanos: u32) -> (text: Option<String>)
    ensures
        text_of(text) == utc_text(secs as int, nanos as int),
{
    match chrono::DateTime::from_timestamp(secs, nanos) {
        Some(instant) => Some(instant.to_string()),
        None => None,
    }
}

/// An instant on the UTC time line that `chrono` can represent: whole
/// seconds since 1970-01-01 00:00:00 UTC, and the nanoseconds into that
/// second.
#[derive(Clone, Copy, Debug, PartialEq, Eq)]
pub struct Timestamp {
    secs: i64,
    nanos: u32,
}

impl Timestamp {
    #[verifier::type_invariant]
    spec fn well_formed(self) -> bool {
        utc_text(self.secs as int, self.nanos as int) is Some
    }

    /// The seconds and the nanoseconds of the instant.
    pub closed spec fn view(self) -> (int, int) {
        (self.secs as int, self.nanos as int)
    }

    /// Whether `chrono` can represent the instant, and so print it.
    pub open spec fn representable(self) -> bool {
        utc_text(self@.0, self@.1) is Some
    }

    /// The text of the instant, as it stands in file names.
    pub open spec fn text(self) -> Seq<char> {
        utc_text(self@.0, self@.1)->0
    }

    /// The instant `secs` seconds after the start of 1970 and `nanos`
    /// nanoseconds on, where `chrono` can represent it.
    pub fn new(secs: i64, nanos: u32) -> (instant: Option<Timestamp>)
        ensures
            instant is Some <==> utc_text(secs as int, nanos as int) is Some,
            instant matches Some(t) ==> t@ == (secs as int, nanos as int),
    {
        match format_utc(secs, nanos) {
            Some(_) => Some(Timestamp { secs, nanos }),
            None => None,
        }
    }

    /// The instant the system clock shows now. Whatever the clock shows,
    /// the instant is one that `chrono` can represent, so it has a text and
    /// can name a file.
    pub fn now() -> (instant: Timestamp)
        ensures
            instant.representable(),
    {
        let (secs, nanos) = utc_now();
        Timestamp { secs, nanos }
    }

    /// Whole seconds since 1970-01-01 00:00:00 UTC.
    pub fn secs(&self) -> (secs: i64)
        ensures
            secs == self@.0,
    {
        self.secs
    }

    /// Nanoseconds into the second.
    pub fn nanos(&self) -> (nanos: u32)
        ensures
            nanos == self@.1,
    {
        self.nanos
    }

    /// The instant as `chrono` prints it.
    pub fn to_text(&self) -> (text: String)
        ensures
            utc_text(self@.0, self@.1) == Some(text@),
            text@ == self.text(),
    {
        proof {
            use_type_invariant(self);
        }
        match format_utc(self.secs, self.nanos) {
            Some(text) => text,
            None => String::new(),
        }
    }
}

} // verus!
