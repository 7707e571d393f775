//! A relay between simplified client requests and a mapping provider's HTTP
//! APIs: place text search and route computation.
//!
//! The crate holds the whole translation layer: query validation, the exact
//! JSON payloads sent upstream, and the parsing and re-rendering of the
//! provider's JSON documents. The HTTP plumbing around it (the server, the
//! outbound client) lives outside the library and exchanges plain strings
//! with it.
//!
//! Encoding decisions, fixed here once:
//! - documents are read and written in the compact form, members in the
//!   provider's canonical order and no whitespace between tokens — the
//!   field masks sent with every call keep the responses to exactly the
//!   masked members;
//! - an absent optional member (a place's price tier, a display name's
//!   language tag) is omitted on output and accepted as omitted or null on
//!   input; the place list itself is the one nullable member written out as
//!   an explicit null, so that zero results round-trip as absence and never
//!   as an error;
//! - numeric members are carried as their decimal text and never
//!   interpreted as quantities.

pub mod json;
pub mod model;
pub mod places;
pub mod relay;
pub mod routes;
pub mod text;
