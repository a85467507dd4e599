//! Post persistence, caching and authorization engine of a pastebin-style content host.
//!
//! The engine performs no input or output of its own. Every operation is a small state
//! machine: it hands out a [`protocol::Request`] for the cache, the relational store or the
//! identity service, and is resumed with the [`protocol::Reply`]. Whoever embeds the engine
//! runs that loop.
//!
//! - [`model`] and [`config`] hold the data: posts, their metadata, errors, and the names
//!   under which posts are stored and cached.
//! - [`slug`] normalizes slugs and says what a slug may hold; [`utility`] draws identifiers
//!   and digests; [`auth`] is the authorization gate; [`query`] writes the statements.
//! - [`protocol`] and [`database`] are the engine itself.
//! - [`backend`], [`semantics`] and [`laws`] exist in contracts only: a model of what
//!   surrounds the engine, what each operation comes to over it, and what holds of the
//!   operations.
//! - [`pages`] holds what a page or an answer shows of a post.
pub mod auth;
pub mod backend;
pub mod config;
pub mod database;
pub mod laws;
pub mod model;
pub mod pages;
pub mod protocol;
pub mod query;
pub mod semantics;
pub mod slug;
pub mod utility;
