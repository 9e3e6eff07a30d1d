//! Decoding, validation and in-memory handling of the TIFU summarization
//! dataset: newline-delimited JSON records, each describing one post together
//! with its tokenized variants and derived summary/source projections.

pub mod data_entries;
pub mod errors;
pub mod long_data_entries;
pub mod long_data_entry;
pub mod path;
pub mod raw_data_entries;
pub mod raw_data_entry;
pub mod short_data_entries;
pub mod short_data_entry;
pub mod json;
pub mod lines;
pub mod data_entry;
pub mod json_text;
