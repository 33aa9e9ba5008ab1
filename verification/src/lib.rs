//! Schema-driven synthesis of a typed query filtering and mutation API.
//!
//! Given a resolved description of an entity's fields (name, kind, arity,
//! uniqueness), the library derives the closed set of legal filter and
//! mutation operations per field, the serialization of constructed filter
//! values into a generic tagged wire format, the classification of queries
//! into remote operation names, and the decisions of the generator's
//! request/response handshake loop.

pub mod filters;
pub mod mutations;
pub mod names;
pub mod params;
pub mod query;
pub mod rpc;
pub mod schema;
pub mod wire;
