//! A stream event request: the schema of its document, and the codec of a
//! date field.

pub mod error;
pub mod text;
pub mod json;
pub mod json_text;
pub mod span;
pub mod instant;
pub mod user_id;
pub mod shard_url;
pub mod request;
pub mod reading;
pub mod writing;
pub mod round_trip;
pub mod date_codec;
pub mod event;
