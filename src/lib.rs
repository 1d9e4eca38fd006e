//! Ranks a channel's recent uploads by view count.
//!
//! The library holds the decisions: which addresses are requested, which
//! fields are read from the answers, which videos are kept, their order, and
//! the text that is shown. Fetching and printing are left to the caller.

pub mod api;
pub mod duration;
pub mod text;
pub mod videos;
