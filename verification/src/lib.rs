//! Resolution of YouTube video URLs to video identifiers, and retrieval of a
//! video's full comment tree through the paginated comment-listing API.
//!
//! The crate has two independent parts. `youtube_url_parsing` turns a URL
//! string into a validated video identifier. `youtube_api` drives the two
//! levels of paginated retrieval (top-level comment threads, then the replies
//! of each thread with a positive reply count) and assembles the flat comment
//! collection with parent linkage. Network transport is left to the caller:
//! the fetch engine says which request to issue next and consumes the raw
//! response bodies.

pub mod json;
pub mod youtube_api;
pub mod youtube_url_parsing;
