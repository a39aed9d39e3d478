//! The codec of a date field: the date is written behind a fixed prefix, and
//! read with or without it.

use vstd::prelude::*;
use crate::text::starts_with;

verus! {

/// The prefix that stands before a written date.
pub open spec fn date_prefix() -> Seq<char> {
    seq!['D', 'a', 't', 'e', ':', ' ']
}

/// A date as it is written: the prefix, then the date.
pub open spec fn written_date(date: Seq<char>) -> Seq<char> {
    date_prefix() + date
}

/// The date that a written text stands for: what follows the prefix where the
/// text begins with it, and the whole text where it does not.
pub open spec fn read_date(text: Seq<char>) -> Seq<char> {
    if date_prefix().is_prefix_of(text) {
        text.skip(date_prefix().len() as int)
    } else {
        text
    }
}

/// Writes a date: the prefix `"Date: "`, then the date as it is.
pub fn serialize_date(date: &str) -> (text: String)
    ensures
        text@ == written_date(date@),
{
    proof {
        reveal_strlit("Date: ");
    }
    let text = String::from_str("Date: ").concat(date);
    assert("Date: "@ =~= date_prefix());
    text
}

/// Reads a date: the prefix `"Date: "` is taken off the front once where the
/// text has it; a text without it is the date itself.
pub fn deserialize_date(text: &str) -> (date: String)
    ensures
        date@ == read_date(text@),
{
    proof {
        reveal_strlit("Date: ");
    }
    assert("Date: "@ =~= date_prefix());
    if starts_with(text, "Date: ") {
        let n = text.unicode_len();
        let rest = text.substring_char(6, n);
        assert(text@.subrange(6, n as int) =~= text@.skip(6));
        rest.to_owned()
    } else {
        text.to_owned()
    }
}

/// Reading what was written gives the date back, whatever the date holds.
pub proof fn lemma_date_read_back(date: Seq<char>)
    ensures
        read_date(written_date(date)) == date,
{
    let text = written_date(date);
    assert(text.subrange(0, date_prefix().len() as int) =~= date_prefix());
    assert(text.skip(date_prefix().len() as int) =~= date);
}

/// Writing what was read gives the text back exactly when the text began with
/// the prefix: a text without it comes back longer than it was.
pub proof fn lemma_date_write_back(text: Seq<char>)
    ensures
        written_date(read_date(text)) == text <==> date_prefix().is_prefix_of(text),
{
    let n = date_prefix().len() as int;
    if date_prefix().is_prefix_of(text) {
        assert(text.subrange(0, n) == date_prefix());
        assert(written_date(read_date(text)) =~= text);
    } else {
        let back = written_date(text);
        assert(back.len() == text.len() + n);
    }
}

} // verus!
