//! A small feed service: posts keyed by author and time, a registry of known
//! users, and the decisions that gate each new post on an outside
//! authentication service.
pub mod auth;
pub mod clock;
pub mod feed;
pub mod keys;
pub mod post;
pub mod store;
