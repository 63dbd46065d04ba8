//! Readable-content extraction from raw HTML: a title and the body text of
//! the main article, behind a minimum-length quality filter, for one document
//! or for a batch processed in parallel.

pub mod whitespace;
pub mod text_ops;
pub mod laws;
