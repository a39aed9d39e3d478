//! Instants: absolute points in time, written with date, time and offset.

use vstd::prelude::*;
use vstd::pervasive::unreached;

verus! {

/// The instant that chrono reads from a text by the `FromStr` of
/// `DateTime<Utc>`, as the seconds since the first of January 1970 (UTC) and
/// the nanoseconds beyond them; `None` where it reads nothing.
pub uninterp spec fn instant_parsed(text: Seq<char>) -> Option<(i64, u32)>;

/// The text that chrono writes for the instant of so many seconds and
/// nanoseconds, with `Z` for the offset and as many digits of the second's
/// fraction as it needs; `None` where chrono has no such instant.
pub uninterp spec fn instant_text(secs: i64, nanos: u32) -> Option<Seq<char>>;

/// `str::parse` at `chrono::DateTime<chrono::Utc>`, which takes the offset
/// into the instant, with the result taken apart by `timestamp` and
/// `timestamp_subsec_nanos`. The contract names what was read.
#[verifier::external_body]
fn read_instant(text: &str) -> (read: Option<(i64, u32)>)
    ensures
        read == instant_parsed(text@),
{
    match text.parse::<chrono::DateTime<chrono::Utc>>() {
        Ok(instant) => Some((instant.timestamp(), instant.timestamp_subsec_nanos())),
        Err(_) => None,
    }
}

/// `chrono::DateTime::to_rfc3339_opts`, with `SecondsFormat::AutoSi` and `Z`,
/// on the instant that `DateTime::from_timestamp` makes of the seconds and
/// nanoseconds; nothing where it makes none. The contract names what was
/// written.
#[verifier::external_body]
fn write_instant(secs: i64, nanos: u32) -> (text: Option<String>)
    ensures
        match text {
            Some(t) => instant_text(secs, nanos) == Some(t@),
            None => instant_text(secs, nanos) is None,
        },
{
    match chrono::DateTime::from_timestamp(secs, nanos) {
        Some(instant) => Some(instant.to_rfc3339_opts(chrono::SecondsFormat::AutoSi, true)),
        None => None,
    }
}

/// An instant: the seconds since the first of January 1970 (UTC), and the
/// nanoseconds beyond them. Every instant is one that reads back: a text is
/// written for it, and that text is read as the same instant.
#[derive(Debug, Clone, Copy, PartialEq, Eq)]
pub struct Instant {
    secs: i64,
    nanos: u32,
}

impl Instant {
    /// The instant's seconds since the first of January 1970 (UTC).
    pub closed spec fn secs(self) -> i64 {
        self.secs
    }

    /// The instant's nanoseconds beyond the whole seconds.
    pub closed spec fn nanos(self) -> u32 {
        self.nanos
    }

    /// The instant of so many seconds and nanoseconds.
    pub closed spec fn of(secs: i64, nanos: u32) -> Instant {
        Instant { secs, nanos }
    }

    /// Seconds and nanoseconds that have a text, which is read as the same
    /// seconds and nanoseconds.
    pub open spec fn reads_back(secs: i64, nanos: u32) -> bool {
        match instant_text(secs, nanos) {
            Some(text) => instant_parsed(text) == Some((secs, nanos)),
            None => false,
        }
    }

    /// What holds of every instant.
    #[verifier::type_invariant]
    pub closed spec fn valid(self) -> bool {
        Self::reads_back(self.secs, self.nanos)
    }

    /// The text that is written for the instant.
    pub open spec fn text(self) -> Seq<char> {
        instant_text(self.secs(), self.nanos())->Some_0
    }

    /// The instant that a text stands for: the one that chrono reads from it,
    /// where that instant reads back.
    pub open spec fn from_text(text: Seq<char>) -> Option<Instant> {
        match instant_parsed(text) {
            Some((secs, nanos)) => if Self::reads_back(secs, nanos) {
                Some(Self::of(secs, nanos))
            } else {
                None
            },
            None => None,
        }
    }

    /// An instant is made of its seconds and nanoseconds, and of nothing else.
    pub proof fn lemma_parts(self)
        ensures
            Self::of(self.secs(), self.nanos()) == self,
            self.valid() == Self::reads_back(self.secs(), self.nanos()),
    {
    }

    /// The seconds and nanoseconds that an instant is made of are its own.
    pub proof fn lemma_of(secs: i64, nanos: u32)
        ensures
            Self::of(secs, nanos).secs() == secs,
            Self::of(secs, nanos).nanos() == nanos,
    {
    }

    /// The text of a valid instant stands for that instant.
    pub proof fn lemma_read_back(self)
        requires
            self.valid(),
        ensures
            Self::from_text(self.text()) == Some(self),
    {
    }

    /// The instant of so many seconds and nanoseconds, where they read back.
    pub fn new(secs: i64, nanos: u32) -> (instant: Option<Instant>)
        ensures
            instant == if Self::reads_back(secs, nanos) {
                Some(Self::of(secs, nanos))
            } else {
                None
            },
            instant matches Some(t) ==> t.secs() == secs && t.nanos() == nanos,
    {
        match write_instant(secs, nanos) {
            Some(text) => match read_instant(text.as_str()) {
                Some((s, n)) => {
                    if s == secs && n == nanos {
                        Some(Instant { secs, nanos })
                    } else {
                        None
                    }
                },
                None => None,
            },
            None => None,
        }
    }

    /// Reads an instant from its text.
    pub fn parse(text: &str) -> (instant: Option<Instant>)
        ensures
            instant == Self::from_text(text@),
            instant matches Some(t) ==> instant_parsed(text@) == Some((t.secs(), t.nanos())),
    {
        match read_instant(text) {
            Some((secs, nanos)) => Self::new(secs, nanos),
            None => None,
        }
    }

    /// Writes the instant as text.
    pub fn to_text(&self) -> (text: String)
        ensures
            text@ == self.text(),
    {
        proof {
            use_type_invariant(self);
        }
        match write_instant(self.secs, self.nanos) {
            Some(text) => text,
            None => unreached(),
        }
    }

    /// The instant's seconds since the first of January 1970 (UTC).
    pub fn timestamp(&self) -> (secs: i64)
        ensures
            secs == self.secs(),
    {
        self.secs
    }

    /// The instant's nanoseconds beyond the whole seconds.
    pub fn subsec_nanos(&self) -> (nanos: u32)
        ensures
            nanos == self.nanos(),
    {
        self.nanos
    }
}

} // verus!
