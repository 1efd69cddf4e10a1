//! Parsing engine for National Weather Service text bulletins.
//!
//! A raw bulletin is dispatched by its three-letter product code to a
//! per-product extractor, which turns the semi-structured text into a typed
//! event record. Shared decoding primitives (coordinate numerals, compact
//! timestamps, pattern captures) live beside the extractors.
pub mod afd_parser;
pub mod domain;
pub mod ffw_parser;
pub mod lsr_parser;
pub mod parser;
pub mod patterns;
pub mod products;
pub mod sel_parser;
pub mod svr_parser;
pub mod svs_parser;
pub mod swo_parser;
pub mod tor_parser;
pub mod text;
pub mod time;
