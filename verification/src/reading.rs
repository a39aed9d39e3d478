//! Reading a request from its document.

use vstd::prelude::*;
use crate::error::SchemaError;
use crate::instant::Instant;
use crate::json::{lemma_trees, trees, Json, JsonValue};
use crate::json_text::json_parsed;
use crate::request::{
    gift_views, Gift, GiftView, PrivateTariff, PrivateTariffView, PublicTariff,
    PublicTariffView, Request, RequestType, RequestView, Stream, StreamView,
};
use crate::shard_url::{ShardUrl, ShardUrlView};
use crate::span::Span;
use crate::text::same_text;
use crate::user_id::UserId;

verus! {

/// The tag that a token stands for: `success` and `failure` stand for the two
/// tags, and no other token stands for any.
pub open spec fn tag_of(token: Seq<char>) -> Option<RequestType> {
    if token == "success"@ {
        Some(RequestType::Success)
    } else if token == "failure"@ {
        Some(RequestType::Failure)
    } else {
        None
    }
}

/// The tag of the member under a key.
pub open spec fn tag_at(doc: JsonValue, key: Seq<char>) -> Result<RequestType, SchemaError> {
    match doc.text_at(key) {
        Ok(token) => match tag_of(token) {
            Some(tag) => Ok(tag),
            None => Err(SchemaError::BadTag),
        },
        Err(e) => Err(e),
    }
}

/// The span of the member under a key.
pub open spec fn span_at(doc: JsonValue, key: Seq<char>) -> Result<Span, SchemaError> {
    match doc.text_at(key) {
        Ok(text) => match Span::from_text(text) {
            Some(span) => Ok(span),
            None => Err(SchemaError::BadDuration),
        },
        Err(e) => Err(e),
    }
}

/// The instant of the member under a key.
pub open spec fn instant_at(doc: JsonValue, key: Seq<char>) -> Result<Instant, SchemaError> {
    match doc.text_at(key) {
        Ok(text) => match Instant::from_text(text) {
            Some(instant) => Ok(instant),
            None => Err(SchemaError::BadTimestamp),
        },
        Err(e) => Err(e),
    }
}

/// The identifier of the member under a key.
pub open spec fn user_id_at(doc: JsonValue, key: Seq<char>) -> Result<UserId, SchemaError> {
    match doc.text_at(key) {
        Ok(text) => match UserId::from_text(text) {
            Some(id) => Ok(id),
            None => Err(SchemaError::BadIdentifier),
        },
        Err(e) => Err(e),
    }
}

/// The location of the member under a key.
pub open spec fn url_at(doc: JsonValue, key: Seq<char>) -> Result<ShardUrlView, SchemaError> {
    match doc.text_at(key) {
        Ok(text) => match ShardUrlView::from_text(text) {
            Some(location) => Ok(location),
            None => Err(SchemaError::BadUrl),
        },
        Err(e) => Err(e),
    }
}

/// The gift that a document stands for. Where several fields are at fault,
/// the error is that of the first in the order `id`, `price`, `description`.
pub open spec fn gift_of(doc: JsonValue) -> Result<GiftView, SchemaError> {
    let id = doc.u32_at("id"@);
    let price = doc.u32_at("price"@);
    let description = doc.text_at("description"@);
    if id is Err {
        Err(id->Err_0)
    } else if price is Err {
        Err(price->Err_0)
    } else if description is Err {
        Err(description->Err_0)
    } else {
        Ok(GiftView { id: id->Ok_0, price: price->Ok_0, description: description->Ok_0 })
    }
}

/// The gifts that the items of an array stand for, in their order. Where
/// several items are at fault, the error is that of the first.
pub open spec fn gifts_of(items: Seq<JsonValue>) -> Result<Seq<GiftView>, SchemaError>
    decreases items.len(),
{
    if items.len() == 0 {
        Ok(Seq::empty())
    } else {
        let front = gifts_of(items.drop_last());
        let last = gift_of(items.last());
        if front is Err {
            Err(front->Err_0)
        } else if last is Err {
            Err(last->Err_0)
        } else {
            Ok(front->Ok_0.push(last->Ok_0))
        }
    }
}

/// The public tariff that a document stands for. The first field at fault in
/// the order `id`, `price`, `duration`, `description` gives the error.
pub open spec fn public_tariff_of(doc: JsonValue) -> Result<PublicTariffView, SchemaError> {
    let id = doc.u32_at("id"@);
    let price = doc.u32_at("price"@);
    let duration = span_at(doc, "duration"@);
    let description = doc.text_at("description"@);
    if id is Err {
        Err(id->Err_0)
    } else if price is Err {
        Err(price->Err_0)
    } else if duration is Err {
        Err(duration->Err_0)
    } else if description is Err {
        Err(description->Err_0)
    } else {
        Ok(
            PublicTariffView {
                id: id->Ok_0,
                price: price->Ok_0,
                duration: duration->Ok_0,
                description: description->Ok_0,
            },
        )
    }
}

/// The private tariff that a document stands for. The first field at fault in
/// the order `client_price`, `duration`, `description` gives the error.
pub open spec fn private_tariff_of(doc: JsonValue) -> Result<PrivateTariffView, SchemaError> {
    let client_price = doc.u32_at("client_price"@);
    let duration = span_at(doc, "duration"@);
    let description = doc.text_at("description"@);
    if client_price is Err {
        Err(client_price->Err_0)
    } else if duration is Err {
        Err(duration->Err_0)
    } else if description is Err {
        Err(description->Err_0)
    } else {
        Ok(
            PrivateTariffView {
                client_price: client_price->Ok_0,
                duration: duration->Ok_0,
                description: description->Ok_0,
            },
        )
    }
}

/// The public tariff under a key.
pub open spec fn public_tariff_at(doc: JsonValue, key: Seq<char>) -> Result<
    PublicTariffView,
    SchemaError,
> {
    match doc.member(key) {
        Ok(tariff) => public_tariff_of(tariff),
        Err(e) => Err(e),
    }
}

/// The private tariff under a key.
pub open spec fn private_tariff_at(doc: JsonValue, key: Seq<char>) -> Result<
    PrivateTariffView,
    SchemaError,
> {
    match doc.member(key) {
        Ok(tariff) => private_tariff_of(tariff),
        Err(e) => Err(e),
    }
}

/// The stream that a document stands for. The first field at fault in the
/// order `user_id`, `is_private`, `settings`, `shard_url`, `public_tariff`,
/// `private_tariff` gives the error.
pub open spec fn stream_of(doc: JsonValue) -> Result<StreamView, SchemaError> {
    let user_id = user_id_at(doc, "user_id"@);
    let is_private = doc.bool_at("is_private"@);
    let settings = doc.u32_at("settings"@);
    let shard_url = url_at(doc, "shard_url"@);
    let public_tariff = public_tariff_at(doc, "public_tariff"@);
    let private_tariff = private_tariff_at(doc, "private_tariff"@);
    if user_id is Err {
        Err(user_id->Err_0)
    } else if is_private is Err {
        Err(is_private->Err_0)
    } else if settings is Err {
        Err(settings->Err_0)
    } else if shard_url is Err {
        Err(shard_url->Err_0)
    } else if public_tariff is Err {
        Err(public_tariff->Err_0)
    } else if private_tariff is Err {
        Err(private_tariff->Err_0)
    } else {
        Ok(
            StreamView {
                user_id: user_id->Ok_0,
                is_private: is_private->Ok_0,
                settings: settings->Ok_0,
                shard_url: shard_url->Ok_0,
                public_tariff: public_tariff->Ok_0,
                private_tariff: private_tariff->Ok_0,
            },
        )
    }
}

/// The debug block that a document stands for. The first field at fault in
/// the order `duration`, `at` gives the error.
pub open spec fn debug_of(doc: JsonValue) -> Result<crate::request::Debug, SchemaError> {
    let duration = span_at(doc, "duration"@);
    let at = instant_at(doc, "at"@);
    if duration is Err {
        Err(duration->Err_0)
    } else if at is Err {
        Err(at->Err_0)
    } else {
        Ok(crate::request::Debug { duration: duration->Ok_0, at: at->Ok_0 })
    }
}

/// The stream under a key.
pub open spec fn stream_at(doc: JsonValue, key: Seq<char>) -> Result<StreamView, SchemaError> {
    match doc.member(key) {
        Ok(stream) => stream_of(stream),
        Err(e) => Err(e),
    }
}

/// The gifts under a key.
pub open spec fn gifts_at(doc: JsonValue, key: Seq<char>) -> Result<Seq<GiftView>, SchemaError> {
    match doc.items_at(key) {
        Ok(items) => gifts_of(items),
        Err(e) => Err(e),
    }
}

/// The debug block under a key.
pub open spec fn debug_at(doc: JsonValue, key: Seq<char>) -> Result<crate::request::Debug, SchemaError> {
    match doc.member(key) {
        Ok(debug) => debug_of(debug),
        Err(e) => Err(e),
    }
}

/// The request that a document stands for. The first field at fault in the
/// order `type`, `stream`, `gifts`, `debug` gives the error; a document that
/// is no object has the wrong shape.
pub open spec fn request_of(doc: JsonValue) -> Result<RequestView, SchemaError> {
    let request_type = tag_at(doc, "type"@);
    let stream = stream_at(doc, "stream"@);
    let gifts = gifts_at(doc, "gifts"@);
    let debug = debug_at(doc, "debug"@);
    if request_type is Err {
        Err(request_type->Err_0)
    } else if stream is Err {
        Err(stream->Err_0)
    } else if gifts is Err {
        Err(gifts->Err_0)
    } else if debug is Err {
        Err(debug->Err_0)
    } else {
        Ok(
            RequestView {
                request_type: request_type->Ok_0,
                stream: stream->Ok_0,
                gifts: gifts->Ok_0,
                debug: debug->Ok_0,
            },
        )
    }
}

/// The request that a text stands for: that of the document that the text
/// is, and a syntax error where the text is no document.
pub open spec fn request_of_text(text: Seq<char>) -> Result<RequestView, SchemaError> {
    match json_parsed(text) {
        Some(doc) => request_of(doc),
        None => Err(SchemaError::Syntax),
    }
}

/// The token `success` stands for success and `failure` for failure, and
/// every other token stands for no tag.
pub proof fn lemma_tag_fidelity()
    ensures
        tag_of("success"@) == Some(RequestType::Success),
        tag_of("failure"@) == Some(RequestType::Failure),
        forall|token: Seq<char>|
            token != "success"@ && token != "failure"@ ==> (#[trigger] tag_of(token)) is None,
{
    reveal_strlit("success");
    reveal_strlit("failure");
    assert("success"@[0] != "failure"@[0]);
}

/// A document whose tag is a text that stands for no tag is no request: the
/// error is that of the tag, whatever else the document holds.
pub proof fn lemma_bad_tag_fails(doc: JsonValue, token: Seq<char>)
    requires
        doc.text_at("type"@) == Ok::<Seq<char>, SchemaError>(token),
        tag_of(token) is None,
    ensures
        request_of(doc) == Err::<RequestView, SchemaError>(SchemaError::BadTag),
{
}

/// A document whose stream has a text for its location that stands for no
/// location is no request.
pub proof fn lemma_bad_location_fails(doc: JsonValue, stream: JsonValue, text: Seq<char>)
    requires
        doc.member("stream"@) == Ok::<JsonValue, SchemaError>(stream),
        stream.text_at("shard_url"@) == Ok::<Seq<char>, SchemaError>(text),
        ShardUrlView::from_text(text) is None,
    ensures
        request_of(doc) is Err,
{
}

/// Once the gifts of the first items are at fault, the gifts of all the items
/// are, with the same error.
pub proof fn lemma_gifts_fault(items: Seq<JsonValue>, n: int)
    requires
        0 <= n <= items.len(),
        gifts_of(items.take(n)) is Err,
    ensures
        gifts_of(items) == gifts_of(items.take(n)),
    decreases items.len() - n,
{
    if n < items.len() {
        assert(items.take(n + 1).drop_last() =~= items.take(n));
        lemma_gifts_fault(items, n + 1);
    } else {
        assert(items.take(n) =~= items);
    }
}

impl RequestType {
    /// Reads a tag from its token.
    pub fn from_token(token: &str) -> (tag: Option<RequestType>)
        ensures
            tag == tag_of(token@),
    {
        if same_text(token, "success") {
            Some(RequestType::Success)
        } else if same_text(token, "failure") {
            Some(RequestType::Failure)
        } else {
            None
        }
    }
}

fn tag_in(doc: &Json, key: &str) -> (found: Result<RequestType, SchemaError>)
    ensures
        found == tag_at(doc@, key@),
{
    match doc.text_at(key) {
        Ok(token) => match RequestType::from_token(token) {
            Some(tag) => Ok(tag),
            None => Err(SchemaError::BadTag),
        },
        Err(e) => Err(e),
    }
}

fn span_in(doc: &Json, key: &str) -> (found: Result<Span, SchemaError>)
    ensures
        found == span_at(doc@, key@),
{
    match doc.text_at(key) {
        Ok(text) => match Span::parse(text) {
            Some(span) => Ok(span),
            None => Err(SchemaError::BadDuration),
        },
        Err(e) => Err(e),
    }
}

fn instant_in(doc: &Json, key: &str) -> (found: Result<Instant, SchemaError>)
    ensures
        found == instant_at(doc@, key@),
{
    match doc.text_at(key) {
        Ok(text) => match Instant::parse(text) {
            Some(instant) => Ok(instant),
            None => Err(SchemaError::BadTimestamp),
        },
        Err(e) => Err(e),
    }
}

fn user_id_in(doc: &Json, key: &str) -> (found: Result<UserId, SchemaError>)
    ensures
        found == user_id_at(doc@, key@),
{
    match doc.text_at(key) {
        Ok(text) => match UserId::parse(text) {
            Some(id) => Ok(id),
            None => Err(SchemaError::BadIdentifier),
        },
        Err(e) => Err(e),
    }
}

fn url_in(doc: &Json, key: &str) -> (found: Result<ShardUrl, SchemaError>)
    ensures
        match found {
            Ok(location) => url_at(doc@, key@) == Ok::<ShardUrlView, SchemaError>(location@),
            Err(e) => url_at(doc@, key@) == Err::<ShardUrlView, SchemaError>(e),
        },
{
    match doc.text_at(key) {
        Ok(text) => match ShardUrl::parse(text) {
            Some(location) => Ok(location),
            None => Err(SchemaError::BadUrl),
        },
        Err(e) => Err(e),
    }
}

impl Gift {
    /// Reads a gift from its document.
    pub fn from_json(doc: &Json) -> (found: Result<Gift, SchemaError>)
        ensures
            match found {
                Ok(gift) => gift_of(doc@) == Ok::<GiftView, SchemaError>(gift@),
                Err(e) => gift_of(doc@) == Err::<GiftView, SchemaError>(e),
            },
    {
        let id = match doc.u32_at("id") {
            Ok(v) => v,
            Err(e) => return Err(e),
        };
        let price = match doc.u32_at("price") {
            Ok(v) => v,
            Err(e) => return Err(e),
        };
        let description = match doc.text_at("description") {
            Ok(v) => v,
            Err(e) => return Err(e),
        };
        Ok(Gift { id, price, description: description.to_owned() })
    }
}

/// Reads the gifts of an array, in their order.
pub fn gifts_from_json(items: &Vec<Json>) -> (found: Result<Vec<Gift>, SchemaError>)
    ensures
        match found {
            Ok(gifts) => gifts_of(trees(items@)) == Ok::<Seq<GiftView>, SchemaError>(
                gift_views(gifts@),
            ),
            Err(e) => gifts_of(trees(items@)) == Err::<Seq<GiftView>, SchemaError>(e),
        },
{
    let ghost docs = trees(items@);
    proof {
        lemma_trees(items@);
    }
    let mut gifts: Vec<Gift> = Vec::new();
    let mut i: usize = 0;
    assert(docs.take(0) =~= Seq::<JsonValue>::empty());
    assert(gift_views(gifts@) =~= Seq::<GiftView>::empty());
    while i < items.len()
        invariant
            i <= items.len(),
            docs == trees(items@),
            docs.len() == items@.len(),
            forall|k: int| 0 <= k < items@.len() ==> (#[trigger] docs[k]) == items@[k]@,
            gifts_of(docs.take(i as int)) == Ok::<Seq<GiftView>, SchemaError>(gift_views(gifts@)),
        decreases items.len() - i,
    {
        proof {
            assert(docs.take(i + 1).drop_last() =~= docs.take(i as int));
            assert(docs.take(i + 1).last() == docs[i as int]);
        }
        match Gift::from_json(&items[i]) {
            Ok(gift) => {
                let ghost before = gift_views(gifts@);
                gifts.push(gift);
                assert(gift_views(gifts@) =~= before.push(gift@));
            },
            Err(e) => {
                proof {
                    lemma_gifts_fault(docs, i + 1);
                }
                return Err(e);
            },
        }
        i += 1;
    }
    assert(docs.take(i as int) =~= docs);
    Ok(gifts)
}

impl PublicTariff {
    /// Reads a public tariff from its document.
    pub fn from_json(doc: &Json) -> (found: Result<PublicTariff, SchemaError>)
        ensures
            match found {
                Ok(tariff) => public_tariff_of(doc@) == Ok::<PublicTariffView, SchemaError>(
                    tariff@,
                ),
                Err(e) => public_tariff_of(doc@) == Err::<PublicTariffView, SchemaError>(e),
            },
    {
        let id = match doc.u32_at("id") {
            Ok(v) => v,
            Err(e) => return Err(e),
        };
        let price = match doc.u32_at("price") {
            Ok(v) => v,
            Err(e) => return Err(e),
        };
        let duration = match span_in(doc, "duration") {
            Ok(v) => v,
            Err(e) => return Err(e),
        };
        let description = match doc.text_at("description") {
            Ok(v) => v,
            Err(e) => return Err(e),
        };
        Ok(PublicTariff { id, price, duration, description: description.to_owned() })
    }
}

impl PrivateTariff {
    /// Reads a private tariff from its document.
    pub fn from_json(doc: &Json) -> (found: Result<PrivateTariff, SchemaError>)
        ensures
            match found {
                Ok(tariff) => private_tariff_of(doc@) == Ok::<PrivateTariffView, SchemaError>(
                    tariff@,
                ),
                Err(e) => private_tariff_of(doc@) == Err::<PrivateTariffView, SchemaError>(e),
            },
    {
        let client_price = match doc.u32_at("client_price") {
            Ok(v) => v,
            Err(e) => return Err(e),
        };
        let duration = match span_in(doc, "duration") {
            Ok(v) => v,
            Err(e) => return Err(e),
        };
        let description = match doc.text_at("description") {
            Ok(v) => v,
            Err(e) => return Err(e),
        };
        Ok(PrivateTariff { client_price, duration, description: description.to_owned() })
    }
}

impl Stream {
    /// Reads a stream from its document.
    pub fn from_json(doc: &Json) -> (found: Result<Stream, SchemaError>)
        ensures
            match found {
                Ok(stream) => stream_of(doc@) == Ok::<StreamView, SchemaError>(stream@),
                Err(e) => stream_of(doc@) == Err::<StreamView, SchemaError>(e),
            },
    {
        let user_id = match user_id_in(doc, "user_id") {
            Ok(v) => v,
            Err(e) => return Err(e),
        };
        let is_private = match doc.bool_at("is_private") {
            Ok(v) => v,
            Err(e) => return Err(e),
        };
        let settings = match doc.u32_at("settings") {
            Ok(v) => v,
            Err(e) => return Err(e),
        };
        let shard_url = match url_in(doc, "shard_url") {
            Ok(v) => v,
            Err(e) => return Err(e),
        };
        let public_tariff = match doc.member("public_tariff") {
            Ok(tariff) => match PublicTariff::from_json(tariff) {
                Ok(v) => v,
                Err(e) => return Err(e),
            },
            Err(e) => return Err(e),
        };
        let private_tariff = match doc.member("private_tariff") {
            Ok(tariff) => match PrivateTariff::from_json(tariff) {
                Ok(v) => v,
                Err(e) => return Err(e),
            },
            Err(e) => return Err(e),
        };
        Ok(Stream { user_id, is_private, settings, shard_url, public_tariff, private_tariff })
    }
}

impl crate::request::Debug {
    /// Reads a debug block from its document.
    pub fn from_json(doc: &Json) -> (found: Result<crate::request::Debug, SchemaError>)
        ensures
            found == debug_of(doc@),
    {
        let duration = match span_in(doc, "duration") {
            Ok(v) => v,
            Err(e) => return Err(e),
        };
        let at = match instant_in(doc, "at") {
            Ok(v) => v,
            Err(e) => return Err(e),
        };
        Ok(crate::request::Debug { duration, at })
    }
}

impl Request {
    /// Reads a request from its document. A request comes back exactly where
    /// the document stands for one, and it is that request; otherwise the
    /// error is the one that the schema gives the document.
    pub fn from_json(doc: &Json) -> (found: Result<Request, SchemaError>)
        ensures
            match found {
                Ok(request) => request_of(doc@) == Ok::<RequestView, SchemaError>(request@),
                Err(e) => request_of(doc@) == Err::<RequestView, SchemaError>(e),
            },
    {
        let request_type = match tag_in(doc, "type") {
            Ok(v) => v,
            Err(e) => return Err(e),
        };
        let stream = match doc.member("stream") {
            Ok(inner) => match Stream::from_json(inner) {
                Ok(v) => v,
                Err(e) => return Err(e),
            },
            Err(e) => return Err(e),
        };
        let gifts = match doc.items_at("gifts") {
            Ok(items) => match gifts_from_json(items) {
                Ok(v) => v,
                Err(e) => return Err(e),
            },
            Err(e) => return Err(e),
        };
        let debug = match doc.member("debug") {
            Ok(inner) => match crate::request::Debug::from_json(inner) {
                Ok(v) => v,
                Err(e) => return Err(e),
            },
            Err(e) => return Err(e),
        };
        Ok(Request { request_type, stream, gifts, debug })
    }

    /// Reads a request from the text of its document.
    pub fn decode(text: &str) -> (found: Result<Request, SchemaError>)
        ensures
            match found {
                Ok(request) => request_of_text(text@) == Ok::<RequestView, SchemaError>(request@),
                Err(e) => request_of_text(text@) == Err::<RequestView, SchemaError>(e),
            },
    {
        match Json::parse(text) {
            Some(doc) => Self::from_json(&doc),
            None => Err(SchemaError::Syntax),
        }
    }
}

} // verus!
