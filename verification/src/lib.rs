//! A search-and-replace library: compile a regular expression and an optional
//! glob once, select the files that pass the hidden / depth / glob / kind
//! filters, and rewrite each selected file's text, in place or for standard
//! output. Traversal and file I/O live outside; every decision and every
//! piece of produced text is specified and verified here.
pub mod pattern;
pub mod select;
pub mod transform;
pub mod driver;
