//! The one error of the schema.

use vstd::prelude::*;

verus! {

/// Why a document is no request.
#[derive(Debug, Clone, Copy, PartialEq, Eq, Structural)]
pub enum SchemaError {
    /// The text is no document at all.
    Syntax,
    /// An object lacks a field that the schema requires.
    MissingField,
    /// A value has another shape than the schema gives its place: no object
    /// where one is expected, a text for a number, a number too large for its
    /// field.
    TypeMismatch,
    /// The request's tag is none of the known tokens.
    BadTag,
    /// A text that should hold an identifier holds none.
    BadIdentifier,
    /// A text that should hold an absolute URL with a host holds none.
    BadUrl,
    /// A text that should hold a duration holds none.
    BadDuration,
    /// A text that should hold a timestamp holds none.
    BadTimestamp,
}

impl SchemaError {
    /// The error in words, as a sequence of characters.
    pub open spec fn words(self) -> Seq<char> {
        match self {
            SchemaError::Syntax => "the text is no document"@,
            SchemaError::MissingField => "a required field is missing"@,
            SchemaError::TypeMismatch => "a value has the wrong shape"@,
            SchemaError::BadTag => "the tag is unknown"@,
            SchemaError::BadIdentifier => "the identifier cannot be read"@,
            SchemaError::BadUrl => "the URL cannot be read"@,
            SchemaError::BadDuration => "the duration cannot be read"@,
            SchemaError::BadTimestamp => "the timestamp cannot be read"@,
        }
    }

    /// The error in words.
    pub fn message(&self) -> (text: String)
        ensures
            text@ == self.words(),
    {
        match self {
            SchemaError::Syntax => String::from_str("the text is no document"),
            SchemaError::MissingField => String::from_str("a required field is missing"),
            SchemaError::TypeMismatch => String::from_str("a value has the wrong shape"),
            SchemaError::BadTag => String::from_str("the tag is unknown"),
            SchemaError::BadIdentifier => String::from_str("the identifier cannot be read"),
            SchemaError::BadUrl => String::from_str("the URL cannot be read"),
            SchemaError::BadDuration => String::from_str("the duration cannot be read"),
            SchemaError::BadTimestamp => String::from_str("the timestamp cannot be read"),
        }
    }
}

} // verus!
