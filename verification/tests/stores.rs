use std::cell::RefCell;
use std::collections::HashMap;

use opendeck::device::DeviceInfo;
use opendeck::error::Error;
use opendeck::profile::DeviceStoreValue;
use opendeck::store::{ReadOutcome, Store};
use opendeck::stores::{device_location, profile_location, DeviceStores};

/// Documents kept in memory, by location.
struct Shelf<V> {
    documents: RefCell<HashMap<String, V>>,
    reads: RefCell<usize>,
    writes: RefCell<usize>,
}

impl<V: Clone> Shelf<V> {
    fn new() -> Self {
        Shelf {
            documents: RefCell::new(HashMap::new()),
            reads: RefCell::new(0),
            writes: RefCell::new(0),
        }
    }

    fn read(&self, location: &String) -> ReadOutcome<V> {
        *self.reads.borrow_mut() += 1;
        match self.documents.borrow().get(location) {
            Some(value) => ReadOutcome::Found(value.clone()),
            None => ReadOutcome::Missing,
        }
    }

    fn write(&self, location: &String, value: &V) -> Result<(), String> {
        *self.writes.borrow_mut() += 1;
        self.documents.borrow_mut().insert(location.clone(), value.clone());
        Ok(())
    }
}

#[test]
fn load_of_missing_location_creates_and_persists_default() {
    let shelf: Shelf<u32> = Shelf::new();
    let read = |location: &String| shelf.read(location);
    let write = |location: &String, value: &u32| shelf.write(location, value);
    let store = Store::load("numbers/one.json".to_owned(), 7u32, &read, &write).unwrap();
    assert_eq!(store.value, 7);
    assert_eq!(store.location, "numbers/one.json");
    assert_eq!(shelf.documents.borrow().get("numbers/one.json"), Some(&7));
    store.save(&write).unwrap();
    assert_eq!(shelf.documents.borrow().get("numbers/one.json"), Some(&7));
}

#[test]
fn device_store_is_loaded_once_and_then_shared() {
    let shelf: Shelf<DeviceStoreValue> = Shelf::new();
    let read = |location: &String| shelf.read(location);
    let write = |location: &String, value: &DeviceStoreValue| shelf.write(location, value);
    let mut stores = DeviceStores::new();
    let device = "dev-1".to_owned();
    {
        let store = stores.get_device_store(&device, &read, &write).unwrap();
        assert_eq!(store.value.selected_profile, "default");
        assert_eq!(store.location, "devices/dev-1.json");
        store.value.selected_profile = "night".to_owned();
    }
    assert_eq!(*shelf.reads.borrow(), 1);
    {
        let store = stores.get_device_store(&device, &read, &write).unwrap();
        assert_eq!(store.value.selected_profile, "night");
    }
    assert_eq!(*shelf.reads.borrow(), 1);
    assert_eq!(*shelf.writes.borrow(), 1);
    assert_eq!(
        shelf.documents.borrow().get("devices/dev-1.json").unwrap().selected_profile,
        "default"
    );
}

#[test]
fn corrupt_device_document_is_reported_and_not_cached() {
    let read = |_: &String| -> ReadOutcome<DeviceStoreValue> {
        ReadOutcome::Failed("expected value at line 1".to_owned())
    };
    let write = |_: &String, _: &DeviceStoreValue| -> Result<(), String> { Ok(()) };
    let mut stores = DeviceStores::new();
    let device = "dev-9".to_owned();
    match stores.get_device_store(&device, &read, &write) {
        Err(Error::Load { device, profile, error }) => {
            assert_eq!(device, "dev-9");
            assert!(profile.is_none());
            assert_eq!(error.location, "devices/dev-9.json");
            assert_eq!(error.cause, "expected value at line 1");
        },
        other => panic!("unexpected outcome: {:?}", other.map(|_| ())),
    }
    assert!(!stores.contains(&device));
}

#[test]
fn save_then_fresh_load_gives_the_saved_value() {
    let shelf: Shelf<DeviceStoreValue> = Shelf::new();
    let read = |location: &String| shelf.read(location);
    let write = |location: &String, value: &DeviceStoreValue| shelf.write(location, value);
    let mut store =
        Store::load("devices/dev-4.json".to_owned(), DeviceStoreValue::new(), &read, &write).unwrap();
    store.value.selected_profile = "stream".to_owned();
    store.value.settings = Some("{\"brightness\":40}".to_owned());
    store.save(&write).unwrap();
    let other = DeviceStoreValue { selected_profile: "unused".to_owned(), settings: None };
    let loaded = Store::load("devices/dev-4.json".to_owned(), other, &read, &write).unwrap();
    assert_eq!(loaded, store);
}

#[test]
fn load_fails_when_the_default_cannot_be_written() {
    let read = |_: &String| -> ReadOutcome<u32> { ReadOutcome::Missing };
    let write = |_: &String, _: &u32| -> Result<(), String> { Err("read-only".to_owned()) };
    let outcome = Store::load("numbers/two.json".to_owned(), 1u32, &read, &write);
    let error = outcome.unwrap_err();
    assert_eq!(error.location, "numbers/two.json");
    assert_eq!(error.cause, "read-only");
}

#[test]
fn load_of_a_found_document_writes_nothing() {
    let shelf: Shelf<u32> = Shelf::new();
    shelf.documents.borrow_mut().insert("n.json".to_owned(), 5);
    let read = |location: &String| shelf.read(location);
    let write = |location: &String, value: &u32| shelf.write(location, value);
    let store = Store::load("n.json".to_owned(), 9u32, &read, &write).unwrap();
    assert_eq!(store.value, 5);
    assert_eq!(*shelf.writes.borrow(), 0);
}

#[test]
fn failed_save_is_reported_with_the_location() {
    let store = Store { value: 3u32, location: "n.json".to_owned() };
    let write = |_: &String, _: &u32| -> Result<(), String> { Err("disk full".to_owned()) };
    let error = store.save(&write).unwrap_err();
    assert_eq!(error.location, "n.json");
    assert_eq!(error.cause, "disk full");
    assert_eq!(store.value, 3);
}

#[test]
fn default_device_document_selects_the_default_profile() {
    let value = DeviceStoreValue::new();
    assert_eq!(value.selected_profile, "default");
    assert_eq!(value.settings, None);
    assert_eq!(value.clone(), value);
}

#[test]
fn locations_are_derived_from_the_identifiers() {
    assert_eq!(device_location(&"sd-123".to_owned()), "devices/sd-123.json");
    assert_eq!(device_location(&"".to_owned()), "devices/.json");
    let device = DeviceInfo { id: "sd-123".to_owned(), name: "Deck".to_owned(), rows: 3, columns: 5 };
    assert_eq!(profile_location(&device, &"night".to_owned()), "profiles/sd-123/night.json");
}

#[test]
fn from_outcome_decides_by_what_was_read() {
    let at = || "n.json".to_owned();
    assert_eq!(
        Store::from_outcome(at(), 1u32, ReadOutcome::Found(5), Ok(())),
        Ok(Store { value: 5, location: at() })
    );
    assert_eq!(
        Store::from_outcome(at(), 1u32, ReadOutcome::Found(5), Err("unused".to_owned())),
        Ok(Store { value: 5, location: at() })
    );
    assert_eq!(
        Store::from_outcome(at(), 1u32, ReadOutcome::Missing, Ok(())),
        Ok(Store { value: 1, location: at() })
    );
    let refused = Store::from_outcome(at(), 1u32, ReadOutcome::Missing, Err("full".to_owned()));
    assert_eq!(refused.unwrap_err().cause, "full");
    let corrupt =
        Store::from_outcome(at(), 1u32, ReadOutcome::Failed("not json".to_owned()), Ok(()));
    let error = corrupt.unwrap_err();
    assert_eq!(error.location, "n.json");
    assert_eq!(error.cause, "not json");
}
