//! The raw-record collection under its historical name: the training-data
//! loader and the raw dataset loader grew separately but hold the same
//! records, so one collection serves both.

pub use crate::raw_data_entries::RawDataEntries as DataEntries;
