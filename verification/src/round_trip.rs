//! What is written is read again as it was.

use vstd::prelude::*;
use crate::error::SchemaError;
use crate::json::{lemma_lookup, lemma_printable_members};
use crate::reading::{
    debug_of, gift_of, gifts_of, private_tariff_of, public_tariff_of, request_of, stream_of,
    tag_of,
};
use crate::request::{
    GiftView, PrivateTariffView, PublicTariffView, Request, RequestType, RequestView, StreamView,
};
use crate::writing::{
    debug_doc, gift_doc, gift_docs, lemma_debug_printable, lemma_gift_printable,
    lemma_private_tariff_printable, lemma_public_tariff_printable, lemma_request_printable,
    lemma_schema_keys, lemma_stream_printable, private_tariff_doc, public_tariff_doc, request_doc,
    stream_doc, tag_token,
};

verus! {

/// The token of a tag stands for that tag.
pub proof fn lemma_tag_round_trip(tag: RequestType)
    ensures
        tag_of(tag_token(tag)) == Some(tag),
{
    lemma_schema_keys();
}

/// The document of a gift stands for that gift.
pub proof fn lemma_gift_round_trip(gift: GiftView)
    ensures
        gift_of(gift_doc(gift)) == Ok::<GiftView, SchemaError>(gift),
{
    let members = gift_doc(gift)->Object_0;
    lemma_gift_printable(gift);
    lemma_printable_members(members);
    lemma_lookup(members, 0);
    lemma_lookup(members, 1);
    lemma_lookup(members, 2);
}

/// The documents of gifts stand for those gifts, in their order.
pub proof fn lemma_gifts_round_trip(gifts: Seq<GiftView>)
    ensures
        gifts_of(gift_docs(gifts)) == Ok::<Seq<GiftView>, SchemaError>(gifts),
    decreases gifts.len(),
{
    let docs = gift_docs(gifts);
    if gifts.len() == 0 {
        assert(gifts =~= Seq::<GiftView>::empty());
    } else {
        assert(docs.drop_last() =~= gift_docs(gifts.drop_last()));
        lemma_gifts_round_trip(gifts.drop_last());
        lemma_gift_round_trip(gifts.last());
        assert(gifts.drop_last().push(gifts.last()) =~= gifts);
    }
}

/// The document of a public tariff with a valid span stands for that tariff.
pub proof fn lemma_public_tariff_round_trip(tariff: PublicTariffView)
    requires
        tariff.duration.valid(),
    ensures
        public_tariff_of(public_tariff_doc(tariff)) == Ok::<PublicTariffView, SchemaError>(tariff),
{
    let members = public_tariff_doc(tariff)->Object_0;
    lemma_public_tariff_printable(tariff);
    lemma_printable_members(members);
    lemma_lookup(members, 0);
    lemma_lookup(members, 1);
    lemma_lookup(members, 2);
    lemma_lookup(members, 3);
    tariff.duration.lemma_read_back();
}

/// The document of a private tariff with a valid span stands for that tariff.
pub proof fn lemma_private_tariff_round_trip(tariff: PrivateTariffView)
    requires
        tariff.duration.valid(),
    ensures
        private_tariff_of(private_tariff_doc(tariff)) == Ok::<PrivateTariffView, SchemaError>(
            tariff,
        ),
{
    let members = private_tariff_doc(tariff)->Object_0;
    lemma_private_tariff_printable(tariff);
    lemma_printable_members(members);
    lemma_lookup(members, 0);
    lemma_lookup(members, 1);
    lemma_lookup(members, 2);
    tariff.duration.lemma_read_back();
}

/// The document of a stream whose parts are valid stands for that stream.
pub proof fn lemma_stream_round_trip(stream: StreamView)
    requires
        stream.user_id.valid(),
        stream.shard_url.valid(),
        stream.public_tariff.duration.valid(),
        stream.private_tariff.duration.valid(),
    ensures
        stream_of(stream_doc(stream)) == Ok::<StreamView, SchemaError>(stream),
{
    let members = stream_doc(stream)->Object_0;
    lemma_stream_printable(stream);
    lemma_printable_members(members);
    lemma_lookup(members, 0);
    lemma_lookup(members, 1);
    lemma_lookup(members, 2);
    lemma_lookup(members, 3);
    lemma_lookup(members, 4);
    lemma_lookup(members, 5);
    stream.user_id.lemma_read_back();
    stream.shard_url.lemma_read_back();
    lemma_public_tariff_round_trip(stream.public_tariff);
    lemma_private_tariff_round_trip(stream.private_tariff);
}

/// The document of a debug block whose parts are valid stands for that block.
pub proof fn lemma_debug_round_trip(debug: crate::request::Debug)
    requires
        debug.duration.valid(),
        debug.at.valid(),
    ensures
        debug_of(debug_doc(debug)) == Ok::<crate::request::Debug, SchemaError>(debug),
{
    let members = debug_doc(debug)->Object_0;
    lemma_debug_printable(debug);
    lemma_printable_members(members);
    lemma_lookup(members, 0);
    lemma_lookup(members, 1);
    debug.duration.lemma_read_back();
    debug.at.lemma_read_back();
}

/// Writing a valid request as a document and reading the document gives the
/// request back, equal in every field.
pub proof fn lemma_round_trip(request: RequestView)
    requires
        request.valid(),
    ensures
        request_of(request_doc(request)) == Ok::<RequestView, SchemaError>(request),
{
    let members = request_doc(request)->Object_0;
    lemma_request_printable(request);
    lemma_printable_members(members);
    lemma_lookup(members, 0);
    lemma_lookup(members, 1);
    lemma_lookup(members, 2);
    lemma_lookup(members, 3);
    lemma_tag_round_trip(request.request_type);
    lemma_stream_round_trip(request.stream);
    lemma_gifts_round_trip(request.gifts);
    lemma_debug_round_trip(request.debug);
}

impl Request {
    /// Writes the request as a document and reads the document again. What
    /// comes back is always a request, and the same one.
    pub fn read_back(&self) -> (again: Result<Request, SchemaError>)
        ensures
            again matches Ok(request) && request@ == self@,
    {
        self.known_valid();
        proof {
            lemma_round_trip(self@);
        }
        Self::from_json(&self.to_json())
    }
}

} // verus!
