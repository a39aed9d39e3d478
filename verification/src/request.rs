//! A stream event request and its parts.

use vstd::prelude::*;
use crate::instant::Instant;
use crate::shard_url::{ShardUrl, ShardUrlView};
use crate::span::Span;
use crate::user_id::UserId;

verus! {

/// Whether the stream event succeeded.
#[derive(Debug, Clone, Copy, PartialEq, Eq, Structural)]
pub enum RequestType {
    Success,
    Failure,
}

/// A gift attached to a request.
#[derive(Debug, PartialEq, Eq)]
pub struct Gift {
    pub id: u32,
    pub price: u32,
    pub description: String,
}

/// A gift as mathematical values.
pub struct GiftView {
    pub id: u32,
    pub price: u32,
    pub description: Seq<char>,
}

impl View for Gift {
    type V = GiftView;

    open spec fn view(&self) -> GiftView {
        GiftView { id: self.id, price: self.price, description: self.description@ }
    }
}

/// The views of a sequence of gifts, gift by gift.
pub open spec fn gift_views(gifts: Seq<Gift>) -> Seq<GiftView> {
    gifts.map_values(|g: Gift| g@)
}

/// The tariff that everyone pays.
#[derive(Debug, PartialEq, Eq)]
pub struct PublicTariff {
    pub id: u32,
    pub price: u32,
    pub duration: Span,
    pub description: String,
}

/// A public tariff as mathematical values.
pub struct PublicTariffView {
    pub id: u32,
    pub price: u32,
    pub duration: Span,
    pub description: Seq<char>,
}

impl View for PublicTariff {
    type V = PublicTariffView;

    open spec fn view(&self) -> PublicTariffView {
        PublicTariffView {
            id: self.id,
            price: self.price,
            duration: self.duration,
            description: self.description@,
        }
    }
}

/// The tariff that one client pays.
#[derive(Debug, PartialEq, Eq)]
pub struct PrivateTariff {
    pub client_price: u32,
    pub duration: Span,
    pub description: String,
}

/// A private tariff as mathematical values.
pub struct PrivateTariffView {
    pub client_price: u32,
    pub duration: Span,
    pub description: Seq<char>,
}

impl View for PrivateTariff {
    type V = PrivateTariffView;

    open spec fn view(&self) -> PrivateTariffView {
        PrivateTariffView {
            client_price: self.client_price,
            duration: self.duration,
            description: self.description@,
        }
    }
}

/// The stream that a request is about.
#[derive(Debug, PartialEq, Eq)]
pub struct Stream {
    pub user_id: UserId,
    pub is_private: bool,
    pub settings: u32,
    pub shard_url: ShardUrl,
    pub public_tariff: PublicTariff,
    pub private_tariff: PrivateTariff,
}

/// A stream as mathematical values.
pub struct StreamView {
    pub user_id: UserId,
    pub is_private: bool,
    pub settings: u32,
    pub shard_url: ShardUrlView,
    pub public_tariff: PublicTariffView,
    pub private_tariff: PrivateTariffView,
}

impl View for Stream {
    type V = StreamView;

    open spec fn view(&self) -> StreamView {
        StreamView {
            user_id: self.user_id,
            is_private: self.is_private,
            settings: self.settings,
            shard_url: self.shard_url@,
            public_tariff: self.public_tariff@,
            private_tariff: self.private_tariff@,
        }
    }
}

/// What is known of how a request was handled.
#[derive(Debug, Clone, Copy, PartialEq, Eq)]
pub struct Debug {
    pub duration: Span,
    pub at: Instant,
}

/// A stream event request.
#[derive(Debug, PartialEq, Eq)]
pub struct Request {
    pub request_type: RequestType,
    pub stream: Stream,
    pub gifts: Vec<Gift>,
    pub debug: Debug,
}

/// A request as mathematical values.
pub struct RequestView {
    pub request_type: RequestType,
    pub stream: StreamView,
    pub gifts: Seq<GiftView>,
    pub debug: Debug,
}

impl View for Request {
    type V = RequestView;

    open spec fn view(&self) -> RequestView {
        RequestView {
            request_type: self.request_type,
            stream: self.stream@,
            gifts: gift_views(self.gifts@),
            debug: self.debug,
        }
    }
}

impl RequestView {
    /// A request whose identifier, location, spans and instant read back.
    /// Every request that the library makes is one.
    pub open spec fn valid(self) -> bool {
        &&& self.stream.user_id.valid()
        &&& self.stream.shard_url.valid()
        &&& self.stream.public_tariff.duration.valid()
        &&& self.stream.private_tariff.duration.valid()
        &&& self.debug.duration.valid()
        &&& self.debug.at.valid()
    }
}

impl Request {
    /// Every request is valid: this does nothing but say so.
    pub fn known_valid(&self)
        ensures
            self@.valid(),
    {
        proof {
            use_type_invariant(&self.stream.user_id);
            use_type_invariant(&self.stream.shard_url);
            use_type_invariant(&self.stream.public_tariff.duration);
            use_type_invariant(&self.stream.private_tariff.duration);
            use_type_invariant(&self.debug.duration);
            use_type_invariant(&self.debug.at);
            self.stream.shard_url.lemma_valid();
        }
    }
}

} // verus!
