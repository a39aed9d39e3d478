//! An event with a name and a date. Its date goes through the date codec on
//! the way to the document and back.

use vstd::prelude::*;
use crate::date_codec::{deserialize_date, serialize_date, lemma_date_read_back, read_date, written_date};
use crate::error::SchemaError;
use crate::json::{
    lemma_lookup, lemma_member_trees, lemma_printable_members, member_trees, Json, JsonValue,
};
use crate::json_text::{json_parsed, json_text};

verus! {

/// An event.
#[derive(Debug, PartialEq, Eq)]
pub struct Event {
    pub name: String,
    pub date: String,
}

/// An event as mathematical values.
pub struct EventView {
    pub name: Seq<char>,
    pub date: Seq<char>,
}

impl View for Event {
    type V = EventView;

    open spec fn view(&self) -> EventView {
        EventView { name: self.name@, date: self.date@ }
    }
}

/// The document of an event: its name as it is, its date as the codec writes
/// it.
pub open spec fn event_doc(event: EventView) -> JsonValue {
    JsonValue::Object(
        seq![
            ("name"@, JsonValue::Text(event.name)),
            ("date"@, JsonValue::Text(written_date(event.date))),
        ],
    )
}

/// The event that a document stands for: its name as it is, its date as the
/// codec reads it. The first field at fault in the order `name`, `date` gives
/// the error.
pub open spec fn event_of(doc: JsonValue) -> Result<EventView, SchemaError> {
    let name = doc.text_at("name"@);
    let date = doc.text_at("date"@);
    if name is Err {
        Err(name->Err_0)
    } else if date is Err {
        Err(date->Err_0)
    } else {
        Ok(EventView { name: name->Ok_0, date: read_date(date->Ok_0) })
    }
}

/// The event that a text stands for: that of the document that the text is,
/// and a syntax error where the text is no document.
pub open spec fn event_of_text(text: Seq<char>) -> Result<EventView, SchemaError> {
    match json_parsed(text) {
        Some(doc) => event_of(doc),
        None => Err(SchemaError::Syntax),
    }
}

/// The text of an event: that of its document.
pub open spec fn event_text(event: EventView) -> Seq<char> {
    json_text(event_doc(event))
}

/// The two keys of an event differ.
pub proof fn lemma_event_keys()
    ensures
        "name"@ != "date"@,
{
    reveal_strlit("name");
    reveal_strlit("date");
    assert("name"@[0] != "date"@[0]);
}

/// The document of an event is printable: it can be written as text.
pub proof fn lemma_event_printable(event: EventView)
    ensures
        event_doc(event).printable(),
{
    lemma_event_keys();
    lemma_printable_members(event_doc(event)->Object_0);
}

/// Writing an event as a document and reading the document gives the event
/// back, whatever its name and date hold.
pub proof fn lemma_event_round_trip(event: EventView)
    ensures
        event_of(event_doc(event)) == Ok::<EventView, SchemaError>(event),
{
    let members = event_doc(event)->Object_0;
    lemma_event_printable(event);
    lemma_printable_members(members);
    lemma_lookup(members, 0);
    lemma_lookup(members, 1);
    lemma_date_read_back(event.date);
}

impl Event {
    /// The event's document.
    pub fn to_json(&self) -> (doc: Json)
        ensures
            doc@ == event_doc(self@),
    {
        let mut members: Vec<(String, Json)> = Vec::new();
        members.push((String::from_str("name"), Json::Text(self.name.clone())));
        members.push((String::from_str("date"), Json::Text(serialize_date(self.date.as_str()))));
        proof {
            lemma_member_trees(members@);
            assert(member_trees(members@) =~= event_doc(self@)->Object_0);
        }
        Json::Object(members)
    }

    /// Reads an event from its document.
    pub fn from_json(doc: &Json) -> (found: Result<Event, SchemaError>)
        ensures
            match found {
                Ok(event) => event_of(doc@) == Ok::<EventView, SchemaError>(event@),
                Err(e) => event_of(doc@) == Err::<EventView, SchemaError>(e),
            },
    {
        let name = match doc.text_at("name") {
            Ok(v) => v,
            Err(e) => return Err(e),
        };
        let date = match doc.text_at("date") {
            Ok(v) => v,
            Err(e) => return Err(e),
        };
        Ok(Event { name: name.to_owned(), date: deserialize_date(date) })
    }

    /// Writes the event as the text of its document. This never fails.
    pub fn encode(&self) -> (text: String)
        ensures
            text@ == event_text(self@),
    {
        let doc = self.to_json();
        proof {
            lemma_event_printable(self@);
        }
        doc.print()
    }

    /// Reads an event from the text of its document.
    pub fn decode(text: &str) -> (found: Result<Event, SchemaError>)
        ensures
            match found {
                Ok(event) => event_of_text(text@) == Ok::<EventView, SchemaError>(event@),
                Err(e) => event_of_text(text@) == Err::<EventView, SchemaError>(e),
            },
    {
        match Json::parse(text) {
            Some(doc) => Self::from_json(&doc),
            None => Err(SchemaError::Syntax),
        }
    }
}

} // verus!
