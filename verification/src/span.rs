//! Spans of time, written in the notation of humantime (`1h 30m`, `234ms`).

use vstd::prelude::*;
use vstd::utf8::encode_utf8;

verus! {

/// The largest weight of a text that is handed to humantime.
pub const WEIGHT_LIMIT: u64 = 100_000_000_000;

/// What `humantime::parse_duration` reads from a text, as whole seconds and
/// the nanoseconds beyond them; `None` where it reads nothing.
pub uninterp spec fn span_parsed(text: Seq<char>) -> Option<(u64, u32)>;

/// What `humantime::format_duration` writes for a span of so many seconds and
/// nanoseconds.
pub uninterp spec fn span_text(secs: u64, nanos: u32) -> Seq<char>;

/// The bytes `0` to `9`.
pub open spec fn is_digit(byte: u8) -> bool {
    48 <= byte <= 57
}

/// The bytes `A` to `Z` and `a` to `z`.
pub open spec fn is_letter(byte: u8) -> bool {
    65 <= byte <= 90 || 97 <= byte <= 122
}

/// A walk over the bytes of a text that keeps two numbers: the sum over the
/// groups of digits that a letter has closed, and ten to the number of digits
/// read since the last letter. A letter closes a group; bytes that are neither
/// digit nor letter change nothing.
pub open spec fn weigh(bytes: Seq<u8>) -> (nat, nat)
    decreases bytes.len(),
{
    if bytes.len() == 0 {
        (0, 1)
    } else {
        let (closed, open) = weigh(bytes.drop_last());
        if is_digit(bytes.last()) {
            (closed, open * 10)
        } else if is_letter(bytes.last()) {
            (closed + open, 1)
        } else {
            (closed, open)
        }
    }
}

/// The weight of a text: an upper bound on the sum of the numbers written in
/// it, each taken as ten to the count of its digits.
pub open spec fn weight(bytes: Seq<u8>) -> nat {
    weigh(bytes).0 + weigh(bytes).1
}

/// A text that humantime can be given. Its parser adds up seconds with
/// checked arithmetic, but panics where the sum is the largest `u64` and the
/// nanoseconds carry once more. A text within the limit stays far below that:
/// no unit is longer than 31,557,600 seconds, so the sum is less than
/// 4 * 10^18.
pub open spec fn bounded(text: Seq<char>) -> bool {
    weight(encode_utf8(text)) <= WEIGHT_LIMIT
}

/// Whether a text is within the limit.
pub fn is_bounded(text: &str) -> (within: bool)
    ensures
        within == bounded(text@),
{
    let bytes = text.as_bytes();
    let mut closed: u64 = 0;
    let mut open: u64 = 1;
    let mut over = false;
    let mut i: usize = 0;
    assert(bytes@.take(0) =~= Seq::<u8>::empty());
    while i < bytes.len()
        invariant
            i <= bytes.len(),
            over ==> weight(bytes@.take(i as int)) > WEIGHT_LIMIT,
            !over ==> weigh(bytes@.take(i as int)) == (closed as nat, open as nat),
            !over ==> closed + open <= WEIGHT_LIMIT,
        decreases bytes.len() - i,
    {
        let byte: u8 = bytes[i];
        proof {
            let next = bytes@.take(i + 1);
            assert(next.drop_last() =~= bytes@.take(i as int));
            assert(next.last() == byte);
        }
        if !over {
            if byte >= 48 && byte <= 57 {
                open = open * 10;
            } else if (byte >= 65 && byte <= 90) || (byte >= 97 && byte <= 122) {
                closed = closed + open;
                open = 1;
            }
            if closed + open > WEIGHT_LIMIT {
                over = true;
            }
        }
        i += 1;
    }
    assert(bytes@.take(i as int) =~= bytes@);
    !over
}

/// `humantime::parse_duration`, with the `Duration` it gives taken apart by
/// `as_secs` and `subsec_nanos`. The contract names what was read. It leaves
/// out the texts beyond the limit, among which are those the parser panics on.
#[verifier::external_body]
fn read_span(text: &str) -> (read: Option<(u64, u32)>)
    requires
        bounded(text@),
    ensures
        read == span_parsed(text@),
{
    match humantime::parse_duration(text) {
        Ok(span) => Some((span.as_secs(), span.subsec_nanos())),
        Err(_) => None,
    }
}

/// `humantime::format_duration` on `Duration::new(secs, nanos)`, which with
/// less than a second of nanoseconds carries nothing and cannot overflow. The
/// contract names what was written.
#[verifier::external_body]
fn write_span(secs: u64, nanos: u32) -> (text: String)
    requires
        nanos < 1_000_000_000,
    ensures
        text@ == span_text(secs, nanos),
{
    humantime::format_duration(std::time::Duration::new(secs, nanos)).to_string()
}

/// A span of time: whole seconds, and less than a second of nanoseconds. Every
/// span is one that reads back: the text written for it is read as the same
/// span.
#[derive(Debug, Clone, Copy, PartialEq, Eq)]
pub struct Span {
    secs: u64,
    nanos: u32,
}

impl Span {
    /// The span's whole seconds.
    pub closed spec fn secs(self) -> u64 {
        self.secs
    }

    /// The span's nanoseconds beyond the whole seconds.
    pub closed spec fn nanos(self) -> u32 {
        self.nanos
    }

    /// The span of so many seconds and nanoseconds.
    pub closed spec fn of(secs: u64, nanos: u32) -> Span {
        Span { secs, nanos }
    }

    /// Seconds and nanoseconds whose text is read as the same seconds and
    /// nanoseconds.
    pub open spec fn reads_back(secs: u64, nanos: u32) -> bool {
        &&& nanos < 1_000_000_000
        &&& bounded(span_text(secs, nanos))
        &&& span_parsed(span_text(secs, nanos)) == Some((secs, nanos))
    }

    /// What holds of every span.
    #[verifier::type_invariant]
    pub closed spec fn valid(self) -> bool {
        Self::reads_back(self.secs, self.nanos)
    }

    /// The text that is written for the span.
    pub open spec fn text(self) -> Seq<char> {
        span_text(self.secs(), self.nanos())
    }

    /// The span that a text stands for: the one that humantime reads from it,
    /// where the text is within the limit and the span reads back.
    pub open spec fn from_text(text: Seq<char>) -> Option<Span> {
        if bounded(text) {
            match span_parsed(text) {
                Some((secs, nanos)) => if Self::reads_back(secs, nanos) {
                    Some(Self::of(secs, nanos))
                } else {
                    None
                },
                None => None,
            }
        } else {
            None
        }
    }

    /// A span is made of its seconds and nanoseconds, and of nothing else.
    pub proof fn lemma_parts(self)
        ensures
            Self::of(self.secs(), self.nanos()) == self,
            self.valid() == Self::reads_back(self.secs(), self.nanos()),
    {
    }

    /// The seconds and nanoseconds that a span is made of are its own.
    pub proof fn lemma_of(secs: u64, nanos: u32)
        ensures
            Self::of(secs, nanos).secs() == secs,
            Self::of(secs, nanos).nanos() == nanos,
    {
    }

    /// The text of a valid span stands for that span.
    pub proof fn lemma_read_back(self)
        requires
            self.valid(),
        ensures
            Self::from_text(self.text()) == Some(self),
    {
    }

    /// The span of so many seconds and nanoseconds, where they read back.
    pub fn new(secs: u64, nanos: u32) -> (span: Option<Span>)
        ensures
            span == if Self::reads_back(secs, nanos) {
                Some(Self::of(secs, nanos))
            } else {
                None
            },
            span matches Some(s) ==> s.secs() == secs && s.nanos() == nanos,
    {
        if nanos >= 1_000_000_000 {
            return None;
        }
        let text = write_span(secs, nanos);
        if !is_bounded(text.as_str()) {
            return None;
        }
        match read_span(text.as_str()) {
            Some((s, n)) => {
                if s == secs && n == nanos {
                    Some(Span { secs, nanos })
                } else {
                    None
                }
            },
            None => None,
        }
    }

    /// The span of so many whole seconds.
    pub fn from_secs(secs: u64) -> (span: Option<Span>)
        ensures
            span == if Self::reads_back(secs, 0) {
                Some(Self::of(secs, 0))
            } else {
                None
            },
    {
        Self::new(secs, 0)
    }

    /// The span of so many milliseconds.
    pub fn from_millis(millis: u64) -> (span: Option<Span>)
        ensures
            span == if Self::reads_back(millis / 1000, ((millis % 1000) * 1_000_000) as u32) {
                Some(Self::of(millis / 1000, ((millis % 1000) * 1_000_000) as u32))
            } else {
                None
            },
    {
        let rest: u64 = millis % 1000;
        let nanos: u64 = rest * 1_000_000;
        Self::new(millis / 1000, nanos as u32)
    }

    /// Reads a span from its text.
    pub fn parse(text: &str) -> (span: Option<Span>)
        ensures
            span == Self::from_text(text@),
            span matches Some(s) ==> span_parsed(text@) == Some((s.secs(), s.nanos())),
    {
        if !is_bounded(text) {
            return None;
        }
        match read_span(text) {
            Some((secs, nanos)) => Self::new(secs, nanos),
            None => None,
        }
    }

    /// Writes the span as text.
    pub fn to_text(&self) -> (text: String)
        ensures
            text@ == self.text(),
    {
        proof {
            use_type_invariant(self);
        }
        write_span(self.secs, self.nanos)
    }

    /// The span's whole seconds.
    pub fn as_secs(&self) -> (secs: u64)
        ensures
            secs == self.secs(),
    {
        self.secs
    }

    /// The span's nanoseconds beyond the whole seconds.
    pub fn subsec_nanos(&self) -> (nanos: u32)
        ensures
            nanos == self.nanos(),
            nanos < 1_000_000_000,
    {
        proof {
            use_type_invariant(self);
        }
        self.nanos
    }
}

} // verus!
