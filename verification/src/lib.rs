//! Client-side runtime core of a market-data and trading SDK: the error
//! taxonomy, the push-notification decoder with its field normalizer, the
//! registry of owned handles, and the bridge that delivers the outcome of
//! asynchronous work to a host callback.

pub mod text;
pub mod timestamp;
pub mod error;
pub mod json;
pub mod request;
pub mod envelope;
pub mod decimal;
pub mod trade;
pub mod normalize;
pub mod push_types;
pub mod registry;
pub mod bridge;
