//! Brave Search provider for a `web_search` tool.
//!
//! The library decides what to ask of Brave's `GET /res/v1/web/search` and what
//! each reply comes to. It makes no request itself: [`search`] hands out the
//! request to send and takes back what came of it.
//!
//! Brave has no domain filter on its side, so results are held to the listed
//! domains after they arrive, by host suffix on a label boundary. A count is
//! capped at 20, and the free tier takes about one query per second, so one
//! request at most is in flight.

pub mod domain;
pub mod laws;
pub mod provider;
pub mod request;
pub mod response;
pub mod search;
pub mod text;
pub mod types;
