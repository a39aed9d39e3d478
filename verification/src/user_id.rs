//! Identifiers of users: 128 bits, written as 32 hexadecimal digits in five
//! groups with hyphens between them.

use vstd::prelude::*;

verus! {

/// The identifier that `uuid::Uuid::try_parse` reads from a text, as a number;
/// `None` where it reads nothing.
pub uninterp spec fn uuid_parsed(text: Seq<char>) -> Option<u128>;

/// The text that the uuid crate writes for an identifier in its hyphenated
/// form.
pub uninterp spec fn uuid_text(value: u128) -> Seq<char>;

/// `uuid::Uuid::try_parse`, with the identifier it gives taken as a number by
/// `as_u128`. The contract names what was read.
#[verifier::external_body]
fn read_uuid(text: &str) -> (read: Option<u128>)
    ensures
        read == uuid_parsed(text@),
{
    match uuid::Uuid::try_parse(text) {
        Ok(id) => Some(id.as_u128()),
        Err(_) => None,
    }
}

/// The `Display` of `uuid::fmt::Hyphenated`, on the identifier that
/// `Uuid::from_u128` makes of the number. The contract names what was written.
#[verifier::external_body]
fn write_uuid(value: u128) -> (text: String)
    ensures
        text@ == uuid_text(value),
{
    uuid::Uuid::from_u128(value).hyphenated().to_string()
}

/// The identifier of a user. Every identifier is one that reads back: the
/// text written for it has 36 characters and is read as the same identifier.
#[derive(Debug, Clone, Copy, PartialEq, Eq)]
pub struct UserId {
    value: u128,
}

impl UserId {
    /// The identifier as a number.
    pub closed spec fn value(self) -> u128 {
        self.value
    }

    /// The identifier that is the given number.
    pub closed spec fn of(value: u128) -> UserId {
        UserId { value }
    }

    /// A number whose text has 36 characters and is read as the same number.
    pub open spec fn reads_back(value: u128) -> bool {
        &&& uuid_text(value).len() == 36
        &&& uuid_parsed(uuid_text(value)) == Some(value)
    }

    /// What holds of every identifier.
    #[verifier::type_invariant]
    pub closed spec fn valid(self) -> bool {
        Self::reads_back(self.value)
    }

    /// The text that is written for the identifier.
    pub open spec fn text(self) -> Seq<char> {
        uuid_text(self.value())
    }

    /// The identifier that a text stands for: the one that the uuid crate
    /// reads from it, where the text has 36 characters, which leaves the
    /// hyphenated form alone, and the identifier reads back.
    pub open spec fn from_text(text: Seq<char>) -> Option<UserId> {
        if text.len() == 36 {
            match uuid_parsed(text) {
                Some(value) => if Self::reads_back(value) {
                    Some(Self::of(value))
                } else {
                    None
                },
                None => None,
            }
        } else {
            None
        }
    }

    /// An identifier is made of its number, and of nothing else.
    pub proof fn lemma_parts(self)
        ensures
            Self::of(self.value()) == self,
            self.valid() == Self::reads_back(self.value()),
    {
    }

    /// The number that an identifier is made of is its own.
    pub proof fn lemma_of(value: u128)
        ensures
            Self::of(value).value() == value,
    {
    }

    /// The text of a valid identifier stands for that identifier.
    pub proof fn lemma_read_back(self)
        requires
            self.valid(),
        ensures
            Self::from_text(self.text()) == Some(self),
    {
    }

    /// The identifier that is the given number, where it reads back.
    pub fn new(value: u128) -> (id: Option<UserId>)
        ensures
            id == if Self::reads_back(value) {
                Some(Self::of(value))
            } else {
                None
            },
            id matches Some(u) ==> u.value() == value,
    {
        let text = write_uuid(value);
        if text.as_str().unicode_len() != 36 {
            return None;
        }
        match read_uuid(text.as_str()) {
            Some(read) => {
                if read == value {
                    Some(UserId { value })
                } else {
                    None
                }
            },
            None => None,
        }
    }

    /// Reads an identifier from its text of 36 characters.
    pub fn parse(text: &str) -> (id: Option<UserId>)
        ensures
            id == Self::from_text(text@),
            id matches Some(u) ==> uuid_parsed(text@) == Some(u.value()),
    {
        if text.unicode_len() != 36 {
            return None;
        }
        match read_uuid(text) {
            Some(value) => Self::new(value),
            None => None,
        }
    }

    /// Writes the identifier as text.
    pub fn to_text(&self) -> (text: String)
        ensures
            text@ == self.text(),
    {
        write_uuid(self.value)
    }

    /// The identifier as a number.
    pub fn as_u128(&self) -> (value: u128)
        ensures
            value == self.value(),
    {
        self.value
    }
}

} // verus!
