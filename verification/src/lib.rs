//! Decoding of the flat `<row .../>` elements of a Q&A site's XML data export into typed
//! records.
//!
//! - [`number`] reads base-10 integers, and [`coercion`] turns the raw bytes of an attribute
//!   value into text, an integer, a flag or a timestamp.
//! - [`element`] is the element as the tokenizer hands it over: its name and its attributes.
//! - [`model`] holds the eight records, the table of each that maps attribute names to fields,
//!   and the engine that fills a record from one element.
//! - [`sequence`] is the rule by which a stream of tokens becomes a lazy sequence of records.
//! - [`laws`] states what holds of decoding and of the sequence for every input.
//!
//! The library reads no file. Its caller owns the tokenizer, pulls one token at a time and
//! hands it over, so one element at most is in memory whatever the size of the file.

pub mod coercion;
pub mod element;
pub mod errors;
pub mod laws;
pub mod model;
pub mod number;
pub mod sequence;
pub mod timestamp;
