//! Retrieval support for verified smart-contract sources: a chain registry,
//! explorer-specific response decoding, and normalization of the various
//! "JSON-encoded multi-file source" envelope conventions into flat
//! (path, content) pairs ready for persistence.

pub mod adapter;
pub mod dispatch;
pub mod errors;
pub mod json;
pub mod normalize;
pub mod registry;
pub mod sink;
pub mod strutil;
