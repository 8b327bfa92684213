//! A client library for the DLsite catalogue: request paths, search query
//! encoding, HTML result extraction, retry and rate-limit decisions, and the
//! response cache, each stated and proved with Verus.

pub mod adapters;
pub mod cache;
pub mod client;
pub mod error;
pub mod html;
pub mod interface;
pub mod path;
pub mod retry;
pub mod text;
