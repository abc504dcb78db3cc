//! Archives web articles as local markdown notes.
//!
//! The library holds the whole pipeline that turns a fetched page into a
//! markdown document: content extraction with its fallback chain, the
//! HTML-to-markdown conversion, title slugification, front-matter rendering,
//! and the per-URL error rules. Network and file I/O stay outside; the
//! library works on plain strings and says in its contracts exactly what it
//! produces.

pub mod clock;
pub mod convert;
pub mod extract;
pub mod front;
pub mod pipeline;
pub mod slug;
pub mod text;
