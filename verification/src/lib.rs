//! A wallet session engine: guarded resource handles, the cached state of a
//! subscribed account, the pipeline that prepares outgoing messages and the
//! rules for signing and submitting them.

pub mod accessors;
pub mod depool;
pub mod error;
pub mod filtering;
pub mod handle;
pub mod json;
pub mod keys;
pub mod model;
pub mod numbers;
pub mod operations;
pub mod prepare;
pub mod session;
pub mod submit;
pub mod subscribe;
pub mod wallet;
