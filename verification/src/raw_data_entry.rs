//! The raw record under the name the collections use for it.

pub use crate::data_entry::DataEntry as RawDataEntry;
