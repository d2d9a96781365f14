//! Codec for enumerated values stored in relational columns: a registry of
//! wire-names, one encoding strategy per backend family, an adapter for
//! nullable columns, and an identity token for query caches.
pub mod naming;
pub mod registry;
pub mod codec;
pub mod nullable;
pub mod identity;
pub mod my_enum;
