//! Instants, and their RFC 3339 text as `chrono` writes and reads it.

use vstd::prelude::*;

verus! {

/// An instant on the UTC time line that can be written as RFC 3339 text:
/// whole seconds since 1970-01-01T00:00:00Z and the nanoseconds into that
/// second.
#[derive(Clone, Copy, Debug, PartialEq, Eq, Structural)]
pub struct Timestamp {
    secs: i64,
    nanos: u32,
}

impl View for Timestamp {
    type V = Timestamp;

    open spec fn view(&self) -> Timestamp {
        *self
    }
}

impl DeepView for Timestamp {
    type V = Timestamp;

    open spec fn deep_view(&self) -> Timestamp {
        *self
    }
}

/// The RFC 3339 text that `chrono` writes for the instant `secs`, `nanos`,
/// or `None` where `chrono` cannot represent that instant.
pub uninterp spec fn rfc3339_text(secs: i64, nanos: u32) -> Option<Seq<char>>;

/// The instant, as seconds and nanoseconds, that `chrono` reads from `text`,
/// or `None` where `chrono` rejects the text.
pub uninterp spec fn rfc3339_instant(text: Seq<char>) -> Option<(i64, u32)>;

/// Reads the system clock through `chrono::Utc::now`, which gives up if the
/// clock is set before 1970. Of the reading only what holds of every reading
/// is claimed: the clock shows no leap second, so the nanoseconds stay below
/// one second; and `now` has built a `DateTime<Utc>` from the reading with
/// `from_timestamp`, so the reading is an instant that has an RFC 3339 text.
#[verifier::external_body]
fn clock_now() -> (reading: (i64, u32))
    ensures
        reading.1 < 1_000_000_000,
        rfc3339_text(reading.0, reading.1) is Some,
{
    let now = chrono::Utc::now();
    (now.timestamp(), now.timestamp_subsec_nanos())
}

/// Formats an instant with `chrono::DateTime::to_rfc3339_opts`, with as many
/// sub-second digits as the instant needs and `Z` for the offset: the text
/// that `chrono` writes when it serializes a `DateTime<Utc>`. The result is
/// `None` exactly where `DateTime::from_timestamp` has no value for the
/// arguments.
#[verifier::external_body]
fn write_rfc3339(secs: i64, nanos: u32) -> (text: Option<String>)
    ensures
        text.deep_view() == rfc3339_text(secs, nanos),
{
    let instant = chrono::DateTime::from_timestamp(secs, nanos)?;
    Some(instant.to_rfc3339_opts(chrono::SecondsFormat::AutoSi, true))
}

/// Parses a date and time with the `FromStr` impl of `chrono::DateTime<Utc>`,
/// which accepts RFC 3339 text and converts any offset to UTC: the reading
/// that `chrono` applies when it deserializes a `DateTime<Utc>`.
#[verifier::external_body]
fn read_rfc3339(text: &str) -> (instant: Option<(i64, u32)>)
    ensures
        instant == rfc3339_instant(text@),
{
    let parsed = text.parse::<chrono::DateTime<chrono::Utc>>().ok()?;
    Some((parsed.timestamp(), parsed.timestamp_subsec_nanos()))
}

impl Timestamp {
    /// Every instant that the program holds has a wire text.
    #[verifier::type_invariant]
    pub open spec fn can_be_written(self) -> bool {
        self.wire_text() is Some
    }

    /// The whole seconds since the start of 1970.
    pub closed spec fn spec_secs(self) -> i64 {
        self.secs
    }

    /// The nanoseconds into the second.
    pub closed spec fn spec_nanos(self) -> u32 {
        self.nanos
    }

    /// The instant with the given parts, as a value to speak of: whether it
    /// can be written is what [`Timestamp::wire_text`] says.
    pub closed spec fn of_parts(secs: i64, nanos: u32) -> Timestamp {
        Timestamp { secs, nanos }
    }

    /// The wire text of this instant, where it has one.
    pub closed spec fn wire_text(self) -> Option<Seq<char>> {
        rfc3339_text(self.secs, self.nanos)
    }

    /// The instant that a wire text denotes, where it denotes one that can
    /// be written again.
    pub closed spec fn from_wire_text(text: Seq<char>) -> Option<Timestamp> {
        match rfc3339_instant(text) {
            Some((secs, nanos)) => if rfc3339_text(secs, nanos) is Some {
                Some(Timestamp { secs, nanos })
            } else {
                None
            },
            None => None,
        }
    }

    /// Whether the instant has a wire text from which it is read back.
    pub open spec fn reads_back(self) -> bool {
        self.wire_text() matches Some(text) && Timestamp::from_wire_text(text) == Some(self)
    }

    /// An instant is its parts, and its wire text is the text of its parts;
    /// a text denotes the instant that is read from it, if that instant can
    /// be written.
    pub proof fn lemma_parts(secs: i64, nanos: u32, text: Seq<char>)
        ensures
            Timestamp::of_parts(secs, nanos).spec_secs() == secs,
            Timestamp::of_parts(secs, nanos).spec_nanos() == nanos,
            Timestamp::of_parts(secs, nanos).wire_text() == rfc3339_text(secs, nanos),
            Timestamp::from_wire_text(text) == match rfc3339_instant(text) {
                Some((s, n)) => if rfc3339_text(s, n) is Some {
                    Some(Timestamp::of_parts(s, n))
                } else {
                    None
                },
                None => None,
            },
    {
    }

    /// Two instants with the same parts are the same instant.
    pub proof fn lemma_same_parts(self, other: Timestamp)
        requires
            self.spec_secs() == other.spec_secs(),
            self.spec_nanos() == other.spec_nanos(),
        ensures
            self == other,
    {
    }

    /// The whole seconds since the start of 1970.
    #[verifier::when_used_as_spec(spec_secs)]
    pub fn secs(self) -> (r: i64)
        ensures
            r == self.spec_secs(),
    {
        self.secs
    }

    /// The nanoseconds into the second.
    #[verifier::when_used_as_spec(spec_nanos)]
    pub fn nanos(self) -> (r: u32)
        ensures
            r == self.spec_nanos(),
    {
        self.nanos
    }

    /// The instant with the given parts, if it is one that can be written.
    pub fn from_parts(secs: i64, nanos: u32) -> (t: Option<Timestamp>)
        ensures
            t == if Timestamp::of_parts(secs, nanos).wire_text() is Some {
                Some(Timestamp::of_parts(secs, nanos))
            } else {
                None
            },
    {
        match write_rfc3339(secs, nanos) {
            Some(_) => Some(Timestamp { secs, nanos }),
            None => None,
        }
    }

    /// The current instant by the system clock, within a second that is no
    /// leap second.
    pub fn now() -> (t: Timestamp)
        ensures
            t.spec_nanos() < 1_000_000_000,
            t.wire_text() is Some,
    {
        let (secs, nanos) = clock_now();
        Timestamp { secs, nanos }
    }

    /// Renders this instant as RFC 3339 text.
    pub fn to_rfc3339(&self) -> (text: String)
        ensures
            Some(text@) == self.wire_text(),
    {
        proof {
            use_type_invariant(self);
        }
        match write_rfc3339(self.secs, self.nanos) {
            Some(text) => text,
            None => String::new(),
        }
    }

    /// Whether the instant is read back from its wire text, found out by
    /// writing it and reading what was written.
    pub fn reads_back_exec(&self) -> (r: bool)
        ensures
            r == self.reads_back(),
    {
        let text = self.to_rfc3339();
        match Timestamp::parse_rfc3339(text.as_str()) {
            Some(read) => read.secs == self.secs && read.nanos == self.nanos,
            None => false,
        }
    }

    /// Reads an instant from RFC 3339 text.
    pub fn parse_rfc3339(text: &str) -> (t: Option<Timestamp>)
        ensures
            t == Timestamp::from_wire_text(text@),
    {
        match read_rfc3339(text) {
            Some((secs, nanos)) => Timestamp::from_parts(secs, nanos),
            None => None,
        }
    }
}

} // verus!
