//! Federation core of a bookmarking server: the cache of federated actors,
//! resolution of global identifiers against it, the trust decisions around
//! signed payloads, and the mapping between local content and its federated
//! form. Every function is verified against the contract it carries, but for
//! the two calls into the URL parser in `web_url`, whose contracts are taken on
//! trust.

pub mod error;
pub mod text;
pub mod web_url;
pub mod actor;
pub mod actor_store;
pub mod store_laws;
pub mod resolver;
pub mod resolver_laws;
pub mod trust;
pub mod content;
pub mod config;
pub mod login;
