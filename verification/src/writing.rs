//! Writing a request as its document.

use vstd::prelude::*;
use crate::json::{
    lemma_member_trees, lemma_printable_items, lemma_printable_members, lemma_trees, member_trees,
    trees, Json, JsonValue,
};
use crate::json_text::json_text;
use crate::request::{
    gift_views, Gift, GiftView, PrivateTariff, PrivateTariffView, PublicTariff, PublicTariffView,
    Request, RequestType, RequestView, Stream, StreamView,
};

verus! {

/// The token that stands for a tag.
pub open spec fn tag_token(tag: RequestType) -> Seq<char> {
    match tag {
        RequestType::Success => "success"@,
        RequestType::Failure => "failure"@,
    }
}

/// The document of a gift.
pub open spec fn gift_doc(gift: GiftView) -> JsonValue {
    JsonValue::Object(
        seq![
            ("id"@, JsonValue::Unsigned(gift.id as u64)),
            ("price"@, JsonValue::Unsigned(gift.price as u64)),
            ("description"@, JsonValue::Text(gift.description)),
        ],
    )
}

/// The documents of a sequence of gifts, gift by gift.
pub open spec fn gift_docs(gifts: Seq<GiftView>) -> Seq<JsonValue> {
    gifts.map_values(|g: GiftView| gift_doc(g))
}

/// The document of a public tariff.
pub open spec fn public_tariff_doc(tariff: PublicTariffView) -> JsonValue {
    JsonValue::Object(
        seq![
            ("id"@, JsonValue::Unsigned(tariff.id as u64)),
            ("price"@, JsonValue::Unsigned(tariff.price as u64)),
            ("duration"@, JsonValue::Text(tariff.duration.text())),
            ("description"@, JsonValue::Text(tariff.description)),
        ],
    )
}

/// The document of a private tariff.
pub open spec fn private_tariff_doc(tariff: PrivateTariffView) -> JsonValue {
    JsonValue::Object(
        seq![
            ("client_price"@, JsonValue::Unsigned(tariff.client_price as u64)),
            ("duration"@, JsonValue::Text(tariff.duration.text())),
            ("description"@, JsonValue::Text(tariff.description)),
        ],
    )
}

/// The document of a stream.
pub open spec fn stream_doc(stream: StreamView) -> JsonValue {
    JsonValue::Object(
        seq![
            ("user_id"@, JsonValue::Text(stream.user_id.text())),
            ("is_private"@, JsonValue::Bool(stream.is_private)),
            ("settings"@, JsonValue::Unsigned(stream.settings as u64)),
            ("shard_url"@, JsonValue::Text(stream.shard_url.text())),
            ("public_tariff"@, public_tariff_doc(stream.public_tariff)),
            ("private_tariff"@, private_tariff_doc(stream.private_tariff)),
        ],
    )
}

/// The document of a debug block.
pub open spec fn debug_doc(debug: crate::request::Debug) -> JsonValue {
    JsonValue::Object(
        seq![
            ("duration"@, JsonValue::Text(debug.duration.text())),
            ("at"@, JsonValue::Text(debug.at.text())),
        ],
    )
}

/// The document of a request.
pub open spec fn request_doc(request: RequestView) -> JsonValue {
    JsonValue::Object(
        seq![
            ("type"@, JsonValue::Text(tag_token(request.request_type))),
            ("stream"@, stream_doc(request.stream)),
            ("gifts"@, JsonValue::Array(gift_docs(request.gifts))),
            ("debug"@, debug_doc(request.debug)),
        ],
    )
}

/// The text of a request: that of its document.
pub open spec fn request_text(request: RequestView) -> Seq<char> {
    json_text(request_doc(request))
}

/// The keys of each object of the schema differ from one another.
pub proof fn lemma_schema_keys()
    ensures
        "id"@ != "price"@,
        "id"@ != "description"@,
        "id"@ != "duration"@,
        "price"@ != "description"@,
        "price"@ != "duration"@,
        "duration"@ != "description"@,
        "client_price"@ != "duration"@,
        "client_price"@ != "description"@,
        "duration"@ != "at"@,
        "user_id"@ != "is_private"@,
        "user_id"@ != "settings"@,
        "user_id"@ != "shard_url"@,
        "user_id"@ != "public_tariff"@,
        "user_id"@ != "private_tariff"@,
        "is_private"@ != "settings"@,
        "is_private"@ != "shard_url"@,
        "is_private"@ != "public_tariff"@,
        "is_private"@ != "private_tariff"@,
        "settings"@ != "shard_url"@,
        "settings"@ != "public_tariff"@,
        "settings"@ != "private_tariff"@,
        "shard_url"@ != "public_tariff"@,
        "shard_url"@ != "private_tariff"@,
        "public_tariff"@ != "private_tariff"@,
        "type"@ != "stream"@,
        "type"@ != "gifts"@,
        "type"@ != "debug"@,
        "stream"@ != "gifts"@,
        "stream"@ != "debug"@,
        "gifts"@ != "debug"@,
        "success"@ != "failure"@,
{
    reveal_strlit("id");
    reveal_strlit("price");
    reveal_strlit("description");
    reveal_strlit("duration");
    reveal_strlit("client_price");
    reveal_strlit("at");
    reveal_strlit("user_id");
    reveal_strlit("is_private");
    reveal_strlit("settings");
    reveal_strlit("shard_url");
    reveal_strlit("public_tariff");
    reveal_strlit("private_tariff");
    reveal_strlit("type");
    reveal_strlit("stream");
    reveal_strlit("gifts");
    reveal_strlit("debug");
    reveal_strlit("success");
    reveal_strlit("failure");
    assert("id"@.len() == 2);
    assert("price"@.len() == 5);
    assert("description"@.len() == 11);
    assert("duration"@.len() == 8);
    assert("client_price"@.len() == 12);
    assert("at"@.len() == 2);
    assert("user_id"@.len() == 7);
    assert("is_private"@.len() == 10);
    assert("settings"@.len() == 8);
    assert("shard_url"@.len() == 9);
    assert("public_tariff"@.len() == 13);
    assert("private_tariff"@.len() == 14);
    assert("type"@.len() == 4);
    assert("stream"@.len() == 6);
    assert("gifts"@.len() == 5);
    assert("debug"@.len() == 5);
    assert("gifts"@[0] != "debug"@[0]);
    assert("success"@[0] != "failure"@[0]);
}

/// The document of a gift is printable.
pub proof fn lemma_gift_printable(gift: GiftView)
    ensures
        gift_doc(gift).printable(),
{
    lemma_schema_keys();
    lemma_printable_members(gift_doc(gift)->Object_0);
}

/// The documents of gifts are printable, each of them.
pub proof fn lemma_gifts_printable(gifts: Seq<GiftView>)
    ensures
        JsonValue::Array(gift_docs(gifts)).printable(),
{
    let docs = gift_docs(gifts);
    assert forall|i: int| 0 <= i < docs.len() implies (#[trigger] docs[i]).printable() by {
        lemma_gift_printable(gifts[i]);
    }
    lemma_printable_items(docs);
}

/// The document of a public tariff is printable.
pub proof fn lemma_public_tariff_printable(tariff: PublicTariffView)
    ensures
        public_tariff_doc(tariff).printable(),
{
    lemma_schema_keys();
    lemma_printable_members(public_tariff_doc(tariff)->Object_0);
}

/// The document of a private tariff is printable.
pub proof fn lemma_private_tariff_printable(tariff: PrivateTariffView)
    ensures
        private_tariff_doc(tariff).printable(),
{
    lemma_schema_keys();
    lemma_printable_members(private_tariff_doc(tariff)->Object_0);
}

/// The document of a stream is printable.
pub proof fn lemma_stream_printable(stream: StreamView)
    ensures
        stream_doc(stream).printable(),
{
    lemma_schema_keys();
    lemma_public_tariff_printable(stream.public_tariff);
    lemma_private_tariff_printable(stream.private_tariff);
    lemma_printable_members(stream_doc(stream)->Object_0);
}

/// The document of a debug block is printable.
pub proof fn lemma_debug_printable(debug: crate::request::Debug)
    ensures
        debug_doc(debug).printable(),
{
    lemma_schema_keys();
    lemma_printable_members(debug_doc(debug)->Object_0);
}

/// The document of a request is printable: it can be written as text.
pub proof fn lemma_request_printable(request: RequestView)
    ensures
        request_doc(request).printable(),
{
    lemma_schema_keys();
    lemma_stream_printable(request.stream);
    lemma_gifts_printable(request.gifts);
    lemma_debug_printable(request.debug);
    lemma_printable_members(request_doc(request)->Object_0);
}

impl RequestType {
    /// The token that stands for the tag.
    pub fn token(&self) -> (token: &'static str)
        ensures
            token@ == tag_token(*self),
    {
        match self {
            RequestType::Success => "success",
            RequestType::Failure => "failure",
        }
    }
}

impl Gift {
    /// The gift's document.
    pub fn to_json(&self) -> (doc: Json)
        ensures
            doc@ == gift_doc(self@),
    {
        let mut members: Vec<(String, Json)> = Vec::new();
        members.push((String::from_str("id"), Json::Unsigned(self.id as u64)));
        members.push((String::from_str("price"), Json::Unsigned(self.price as u64)));
        members.push((String::from_str("description"), Json::Text(self.description.clone())));
        proof {
            lemma_member_trees(members@);
            assert(member_trees(members@) =~= gift_doc(self@)->Object_0);
        }
        Json::Object(members)
    }
}

/// The documents of gifts, gift by gift.
pub fn gifts_to_json(gifts: &Vec<Gift>) -> (docs: Vec<Json>)
    ensures
        trees(docs@) == gift_docs(gift_views(gifts@)),
{
    let mut docs: Vec<Json> = Vec::new();
    let mut i: usize = 0;
    while i < gifts.len()
        invariant
            i <= gifts.len(),
            docs.len() == i,
            forall|k: int| 0 <= k < i ==> (#[trigger] docs@[k])@ == gift_doc(gifts@[k]@),
        decreases gifts.len() - i,
    {
        docs.push(gifts[i].to_json());
        i += 1;
    }
    proof {
        lemma_trees(docs@);
        assert(trees(docs@) =~= gift_docs(gift_views(gifts@)));
    }
    docs
}

impl PublicTariff {
    /// The tariff's document.
    pub fn to_json(&self) -> (doc: Json)
        ensures
            doc@ == public_tariff_doc(self@),
    {
        let mut members: Vec<(String, Json)> = Vec::new();
        members.push((String::from_str("id"), Json::Unsigned(self.id as u64)));
        members.push((String::from_str("price"), Json::Unsigned(self.price as u64)));
        members.push((String::from_str("duration"), Json::Text(self.duration.to_text())));
        members.push((String::from_str("description"), Json::Text(self.description.clone())));
        proof {
            lemma_member_trees(members@);
            assert(member_trees(members@) =~= public_tariff_doc(self@)->Object_0);
        }
        Json::Object(members)
    }
}

impl PrivateTariff {
    /// The tariff's document.
    pub fn to_json(&self) -> (doc: Json)
        ensures
            doc@ == private_tariff_doc(self@),
    {
        let mut members: Vec<(String, Json)> = Vec::new();
        members.push((String::from_str("client_price"), Json::Unsigned(self.client_price as u64)));
        members.push((String::from_str("duration"), Json::Text(self.duration.to_text())));
        members.push((String::from_str("description"), Json::Text(self.description.clone())));
        proof {
            lemma_member_trees(members@);
            assert(member_trees(members@) =~= private_tariff_doc(self@)->Object_0);
        }
        Json::Object(members)
    }
}

impl Stream {
    /// The stream's document.
    pub fn to_json(&self) -> (doc: Json)
        ensures
            doc@ == stream_doc(self@),
    {
        let mut members: Vec<(String, Json)> = Vec::new();
        members.push((String::from_str("user_id"), Json::Text(self.user_id.to_text())));
        members.push((String::from_str("is_private"), Json::Bool(self.is_private)));
        members.push((String::from_str("settings"), Json::Unsigned(self.settings as u64)));
        members.push((String::from_str("shard_url"), Json::Text(self.shard_url.to_text())));
        members.push((String::from_str("public_tariff"), self.public_tariff.to_json()));
        members.push((String::from_str("private_tariff"), self.private_tariff.to_json()));
        proof {
            lemma_member_trees(members@);
            assert(member_trees(members@) =~= stream_doc(self@)->Object_0);
        }
        Json::Object(members)
    }
}

impl crate::request::Debug {
    /// The debug block's document.
    pub fn to_json(&self) -> (doc: Json)
        ensures
            doc@ == debug_doc(*self),
    {
        let mut members: Vec<(String, Json)> = Vec::new();
        members.push((String::from_str("duration"), Json::Text(self.duration.to_text())));
        members.push((String::from_str("at"), Json::Text(self.at.to_text())));
        proof {
            lemma_member_trees(members@);
            assert(member_trees(members@) =~= debug_doc(*self)->Object_0);
        }
        Json::Object(members)
    }
}

impl Request {
    /// The request's document.
    pub fn to_json(&self) -> (doc: Json)
        ensures
            doc@ == request_doc(self@),
    {
        let mut members: Vec<(String, Json)> = Vec::new();
        members.push(
            (String::from_str("type"), Json::Text(String::from_str(self.request_type.token()))),
        );
        members.push((String::from_str("stream"), self.stream.to_json()));
        members.push((String::from_str("gifts"), Json::Array(gifts_to_json(&self.gifts))));
        members.push((String::from_str("debug"), self.debug.to_json()));
        proof {
            lemma_member_trees(members@);
            assert(member_trees(members@) =~= request_doc(self@)->Object_0);
        }
        Json::Object(members)
    }

    /// Writes the request as the text of its document. This never fails.
    pub fn encode(&self) -> (text: String)
        ensures
            text@ == request_text(self@),
    {
        let doc = self.to_json();
        proof {
            lemma_request_printable(self@);
        }
        doc.print()
    }
}

} // verus!
