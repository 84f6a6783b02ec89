//! A chat bridge core: decoding remote envelopes, fetching paginated
//! collections, caching per-credential lookups, resolving fields in nested
//! telemetry trees, and turning a recognised intent into a reply.

pub mod error;
pub mod text;
pub mod json;
pub mod model;
pub mod codec;
pub mod fetch;
pub mod keyed;
pub mod cache;
pub mod resolver;
pub mod token;
pub mod nlp;
pub mod pipeline;
pub mod hipchat;
pub mod report;
pub mod oauth2;
pub mod akc;
