//! Redirect service core
//!
//! Short identifiers ("slugs") stand for destination URLs. This library holds
//! what the service decides, with contracts that Verus checks:
//!
//! - [`root`]: from the path of a request to its slug, and from what the slug
//!   stands for to the answer (a redirect, not found, gone, or an error) and
//!   the page hit that the request leaves, with the query string forwarded
//!   where a destination asks for it;
//! - [`database`]: what a slug stands for, found out step by step from what
//!   the store holds; which slug a stored change makes stale; and the page
//!   hit channel with its collector, which sheds under load and drains on
//!   shutdown;
//! - [`api`]: what the administrative endpoints check and answer;
//! - [`storage`]: a store that lives in memory.
//!
//! The library does no input or output. Where it needs the `url`,
//! `percent-encoding`, `unicode-normalization`, `uuid`, `argon2` and `tokio`
//! crates, it calls them through small functions whose contracts are trusted,
//! each marked as such where it stands.

pub mod aliases;
pub mod api;
pub mod client_ip;
pub mod database;
pub mod destinations;
pub mod ids;
pub mod normalization;
pub mod notes;
pub mod password;
pub mod percent;
pub mod root;
pub mod storage;
pub mod text;
pub mod timestamp;
pub mod urls;
pub mod users;
pub mod utils;
