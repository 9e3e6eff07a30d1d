//! The collections: appending, removing, indexed access and iteration, for
//! every record kind.

use tifu_data::data_entries::DataEntries;
use tifu_data::data_entry::DataEntry;
use tifu_data::errors::Error;
use tifu_data::long_data_entries::LongDataEntries;
use tifu_data::long_data_entry::LongDataEntry;
use tifu_data::raw_data_entries::RawDataEntries;
use tifu_data::raw_data_entry::RawDataEntry;
use tifu_data::short_data_entries::ShortDataEntries;
use tifu_data::short_data_entry::ShortDataEntry;

#[test]
fn test_raw_data_entries_accessors() {
    let mut d1 = RawDataEntry::new();
    d1.title = "d1".to_string();
    let mut d2 = RawDataEntry::new();
    d2.title = "d2".to_string();
    let mut d3 = RawDataEntry::new();
    d3.title = "d3".to_string();

    let mut ds = RawDataEntries::new();
    assert_eq!(ds.len(), 0);
    assert!(ds.is_empty());

    ds.push(d1.clone());
    assert_eq!(ds.len(), 1);
    assert!(!ds.is_empty());
    assert_eq!(*ds.get(0).unwrap(), d1);

    ds.push(d2.clone());
    assert_eq!(ds.len(), 2);
    assert!(!ds.is_empty());
    assert_eq!(*ds.get(0).unwrap(), d1);
    assert_eq!(*ds.get(1).unwrap(), d2);

    ds.push(d3.clone());
    assert_eq!(ds.len(), 3);
    assert!(!ds.is_empty());
    assert_eq!(*ds.get(0).unwrap(), d1);
    assert_eq!(*ds.get(1).unwrap(), d2);
    assert_eq!(*ds.get(2).unwrap(), d3);

    let mut it = ds.clone();
    let mut i = 0usize;
    while let Some(v) = it.next() {
        assert_eq!(&v, ds.get(i).unwrap());
        i += 1;
    }
    assert_eq!(i, ds.len());
}

#[test]
fn test_raw_data_entries_modifiers() {
    let d = RawDataEntry::new();
    let d1 = d.clone();
    let d2 = d.clone();
    let d3 = d.clone();

    let mut ds = RawDataEntries::new();
    assert_eq!(ds.len(), 0);
    assert!(ds.is_empty());

    ds.push(d1);
    assert_eq!(ds.len(), 1);
    assert!(!ds.is_empty());

    let dx_opt = ds.pop();
    assert!(dx_opt.is_some());

    let dx = dx_opt.unwrap();
    assert_eq!(d, dx);
    assert_eq!(ds.len(), 0);
    assert!(ds.is_empty());

    ds.push(d2);
    ds.push(d3);
    assert_eq!(ds.len(), 2);
    assert!(!ds.is_empty());

    let dy_opt = ds.pop();
    assert!(dy_opt.is_some());
    let dz_opt = ds.pop();
    assert!(dz_opt.is_some());

    let dy = dy_opt.unwrap();
    let dz = dz_opt.unwrap();
    assert_eq!(dy, d);
    assert_eq!(dz, d);
    assert_eq!(ds.len(), 0);
    assert!(ds.is_empty());
}

#[test]
fn test_short_data_entries_accessors() {
    let mut d1 = ShortDataEntry::new();
    d1.summary = "d1".to_string();
    let mut d2 = ShortDataEntry::new();
    d2.summary = "d2".to_string();
    let mut d3 = ShortDataEntry::new();
    d3.summary = "d3".to_string();

    let mut ds = ShortDataEntries::new();
    assert_eq!(ds.len(), 0);
    assert!(ds.is_empty());

    ds.push(d1.clone());
    assert_eq!(ds.len(), 1);
    assert!(!ds.is_empty());
    assert_eq!(*ds.get(0).unwrap(), d1);

    ds.push(d2.clone());
    assert_eq!(ds.len(), 2);
    assert!(!ds.is_empty());
    assert_eq!(*ds.get(0).unwrap(), d1);
    assert_eq!(*ds.get(1).unwrap(), d2);

    ds.push(d3.clone());
    assert_eq!(ds.len(), 3);
    assert!(!ds.is_empty());
    assert_eq!(*ds.get(0).unwrap(), d1);
    assert_eq!(*ds.get(1).unwrap(), d2);
    assert_eq!(*ds.get(2).unwrap(), d3);

    let mut it = ds.clone();
    let mut i = 0usize;
    while let Some(v) = it.next() {
        assert_eq!(&v, ds.get(i).unwrap());
        i += 1;
    }
    assert_eq!(i, ds.len());
}

#[test]
fn test_short_data_entries_modifiers() {
    let d = ShortDataEntry::new();
    let d1 = d.clone();
    let d2 = d.clone();
    let d3 = d.clone();

    let mut ds = ShortDataEntries::new();
    assert_eq!(ds.len(), 0);
    assert!(ds.is_empty());

    ds.push(d1);
    assert_eq!(ds.len(), 1);
    assert!(!ds.is_empty());

    let dx_opt = ds.pop();
    assert!(dx_opt.is_some());

    let dx = dx_opt.unwrap();
    assert_eq!(d, dx);
    assert_eq!(ds.len(), 0);
    assert!(ds.is_empty());

    ds.push(d2);
    ds.push(d3);
    assert_eq!(ds.len(), 2);
    assert!(!ds.is_empty());

    let dy_opt = ds.pop();
    assert!(dy_opt.is_some());
    let dz_opt = ds.pop();
    assert!(dz_opt.is_some());

    let dy = dy_opt.unwrap();
    let dz = dz_opt.unwrap();
    assert_eq!(dy, d);
    assert_eq!(dz, d);
    assert_eq!(ds.len(), 0);
    assert!(ds.is_empty());
}

#[test]
fn test_long_data_entries_accessors() {
    let mut d1 = LongDataEntry::new();
    d1.summary = Some("d1".to_string());
    let mut d2 = LongDataEntry::new();
    d2.summary = Some("d2".to_string());
    let mut d3 = LongDataEntry::new();
    d3.summary = Some("d3".to_string());

    let mut ds = LongDataEntries::new();
    assert_eq!(ds.len(), 0);
    assert!(ds.is_empty());

    ds.push(d1.clone());
    assert_eq!(ds.len(), 1);
    assert!(!ds.is_empty());
    assert_eq!(*ds.get(0).unwrap(), d1);

    ds.push(d2.clone());
    assert_eq!(ds.len(), 2);
    assert!(!ds.is_empty());
    assert_eq!(*ds.get(0).unwrap(), d1);
    assert_eq!(*ds.get(1).unwrap(), d2);

    ds.push(d3.clone());
    assert_eq!(ds.len(), 3);
    assert!(!ds.is_empty());
    assert_eq!(*ds.get(0).unwrap(), d1);
    assert_eq!(*ds.get(1).unwrap(), d2);
    assert_eq!(*ds.get(2).unwrap(), d3);

    let mut it = ds.clone();
    let mut i = 0usize;
    while let Some(v) = it.next() {
        assert_eq!(&v, ds.get(i).unwrap());
        i += 1;
    }
    assert_eq!(i, ds.len());
}

#[test]
fn test_long_data_entries_modifiers() {
    let d = LongDataEntry::new();
    let d1 = d.clone();
    let d2 = d.clone();
    let d3 = d.clone();

    let mut ds = LongDataEntries::new();
    assert_eq!(ds.len(), 0);
    assert!(ds.is_empty());

    ds.push(d1);
    assert_eq!(ds.len(), 1);
    assert!(!ds.is_empty());

    let dx_opt = ds.pop();
    assert!(dx_opt.is_some());

    let dx = dx_opt.unwrap();
    assert_eq!(d, dx);
    assert_eq!(ds.len(), 0);
    assert!(ds.is_empty());

    ds.push(d2);
    ds.push(d3);
    assert_eq!(ds.len(), 2);
    assert!(!ds.is_empty());

    let dy_opt = ds.pop();
    assert!(dy_opt.is_some());
    let dz_opt = ds.pop();
    assert!(dz_opt.is_some());

    let dy = dy_opt.unwrap();
    let dz = dz_opt.unwrap();
    assert_eq!(dy, d);
    assert_eq!(dz, d);
    assert_eq!(ds.len(), 0);
    assert!(ds.is_empty());
}

#[test]
fn test_data_entries_accessors() {
    let mut d1 = DataEntry::new();
    d1.title = "d1".to_string();
    let mut d2 = DataEntry::new();
    d2.title = "d2".to_string();
    let mut d3 = DataEntry::new();
    d3.title = "d3".to_string();

    let mut ds = DataEntries::new();
    assert_eq!(ds.len(), 0);
    assert!(ds.is_empty());

    ds.push(d1.clone());
    assert_eq!(ds.len(), 1);
    assert!(!ds.is_empty());
    assert_eq!(*ds.get(0).unwrap(), d1);

    ds.push(d2.clone());
    assert_eq!(ds.len(), 2);
    assert!(!ds.is_empty());
    assert_eq!(*ds.get(0).unwrap(), d1);
    assert_eq!(*ds.get(1).unwrap(), d2);

    ds.push(d3.clone());
    assert_eq!(ds.len(), 3);
    assert!(!ds.is_empty());
    assert_eq!(*ds.get(0).unwrap(), d1);
    assert_eq!(*ds.get(1).unwrap(), d2);
    assert_eq!(*ds.get(2).unwrap(), d3);

    let mut it = ds.clone();
    let mut i = 0usize;
    while let Some(v) = it.next() {
        assert_eq!(&v, ds.get(i).unwrap());
        i += 1;
    }
    assert_eq!(i, ds.len());
}

#[test]
fn test_data_entries_modifiers() {
    let d = DataEntry::new();
    let d1 = d.clone();
    let d2 = d.clone();
    let d3 = d.clone();

    let mut ds = DataEntries::new();
    assert_eq!(ds.len(), 0);
    assert!(ds.is_empty());

    ds.push(d1);
    assert_eq!(ds.len(), 1);
    assert!(!ds.is_empty());

    let dx_opt = ds.pop();
    assert!(dx_opt.is_some());

    let dx = dx_opt.unwrap();
    assert_eq!(d, dx);
    assert_eq!(ds.len(), 0);
    assert!(ds.is_empty());

    ds.push(d2);
    ds.push(d3);
    assert_eq!(ds.len(), 2);
    assert!(!ds.is_empty());

    let dy_opt = ds.pop();
    assert!(dy_opt.is_some());
    let dz_opt = ds.pop();
    assert!(dz_opt.is_some());

    let dy = dy_opt.unwrap();
    let dz = dz_opt.unwrap();
    assert_eq!(dy, d);
    assert_eq!(dz, d);
    assert_eq!(ds.len(), 0);
    assert!(ds.is_empty());
}

#[test]
fn test_pop_on_empty_returns_none() {
    let mut ds = RawDataEntries::new();
    assert!(ds.pop().is_none());
    assert_eq!(ds.len(), 0);
}

#[test]
fn test_get_out_of_bounds() {
    let mut ds = RawDataEntries::new();
    ds.push(RawDataEntry::new());
    assert!(ds.get(0).is_ok());
    assert_eq!(ds.get(1), Err(Error::Bounds(1, 1)));
    assert_eq!(ds.get(7), Err(Error::Bounds(7, 1)));
}

#[test]
fn test_extend_from_slice_keeps_order() {
    let mut a = RawDataEntry::new();
    a.id = "a".to_string();
    let mut b = RawDataEntry::new();
    b.id = "b".to_string();
    let mut ds = RawDataEntries::new();
    ds.push(a.clone());
    ds.extend_from_slice(&[b.clone(), a.clone()]);
    assert_eq!(ds.len(), 3);
    assert_eq!(*ds.get(0).unwrap(), a);
    assert_eq!(*ds.get(1).unwrap(), b);
    assert_eq!(*ds.get(2).unwrap(), a);
}

#[test]
fn test_iterating_a_clone_leaves_the_original_cursor() {
    let mut ds = RawDataEntries::new();
    ds.push(RawDataEntry::new());
    ds.push(RawDataEntry::new());
    let mut copy = ds.clone();
    while copy.next().is_some() {}
    // The original still starts from the beginning.
    let mut n = 0usize;
    while ds.next().is_some() {
        n += 1;
    }
    assert_eq!(n, 2);
}
