//! A client library for the NEX protocol: address parsing, a line-indexed
//! document model with an incrementally built link cache, the decisions of
//! the background fetch worker, and the navigation controller that ties
//! them together.

pub mod address;
pub mod document;
pub mod engine;
pub mod nav;
pub mod text;
pub mod url_ref;
