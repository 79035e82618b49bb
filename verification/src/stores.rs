//! The two caches: the documents of devices, keyed by device, and the
//! documents of profiles, keyed by device and profile.

use vstd::prelude::*;
use vstd::string::StringExecFns;
use crate::cache::{CacheKey, StoreCache};
use crate::device::{DeviceInfo, DeviceInfoView};
use crate::error::{Error, ErrorView, LoadError};
use crate::profile::{DeviceStoreValue, DeviceStoreValueView, ProfileStoreValue, empty_grid};
use crate::store::{ReadOutcome, Store, load_gives};

verus! {

/// Where the document of a device is kept.
pub open spec fn device_store_location(device: Seq<char>) -> Seq<char> {
    "devices/"@ + device + ".json"@
}

/// Where the document of a profile of a device is kept.
pub open spec fn profile_store_location(device: Seq<char>, profile: Seq<char>) -> Seq<char> {
    "profiles/"@ + device + "/"@ + profile + ".json"@
}

/// Where the document of the device `device` is kept.
pub fn device_location(device: &String) -> (location: String)
    ensures
        location@ == device_store_location(device@),
{
    let mut location = "devices/".to_owned();
    location.append(device.as_str());
    location.append(".json");
    location
}

/// Where the document of the profile `profile` of `device` is kept: under
/// the id that the registry holds for the device.
pub fn profile_location(device: &DeviceInfo, profile: &String) -> (location: String)
    ensures
        location@ == profile_store_location(device@.id, profile@),
{
    let mut location = "profiles/".to_owned();
    location.append(device.id.as_str());
    location.append("/");
    location.append(profile.as_str());
    location.append(".json");
    location
}

/// `read` can be asked for any location.
pub open spec fn reads_anywhere<V, R>(read: &R) -> bool where R: Fn(&String) -> ReadOutcome<V> {
    forall|location: String| call_requires(read, (&location,))
}

/// `write` can be asked to write any value at any location.
pub open spec fn writes_anywhere<V, W>(write: &W) -> bool where
    W: Fn(&String, &V) -> Result<(), String>,
 {
    forall|location: String, value: V| call_requires(write, (&location, &value))
}

/// `loaded` is what loading the document of `device` may give: a load from
/// the device's location, with the initial document as the default.
pub open spec fn device_load_gives<R, W>(
    read: &R,
    write: &W,
    device: Seq<char>,
    loaded: Result<Store<DeviceStoreValue>, LoadError>,
) -> bool where
    R: Fn(&String) -> ReadOutcome<DeviceStoreValue>,
    W: Fn(&String, &DeviceStoreValue) -> Result<(), String>,
 {
    exists|location: String, default: DeviceStoreValue|
        {
            &&& location@ == device_store_location(device)
            &&& default@ == DeviceStoreValueView::initial()
            &&& #[trigger] load_gives(read, write, location, default, loaded)
        }
}

/// `loaded` is what loading the document of `profile` of `device` may give:
/// a load from the profile's location, with an empty grid of the device's
/// size as the default.
pub open spec fn profile_load_gives<R, W>(
    read: &R,
    write: &W,
    device: DeviceInfoView,
    profile: Seq<char>,
    loaded: Result<Store<ProfileStoreValue>, LoadError>,
) -> bool where
    R: Fn(&String) -> ReadOutcome<ProfileStoreValue>,
    W: Fn(&String, &ProfileStoreValue) -> Result<(), String>,
 {
    exists|location: String, default: ProfileStoreValue|
        {
            &&& location@ == profile_store_location(device.id, profile)
            &&& default@ == empty_grid(device.slots())
            &&& #[trigger] load_gives(read, write, location, default, loaded)
        }
}

/// `store` is what a request for the document of `device` hands out, given
/// the documents open `before`: the open one, or else a loaded one.
pub open spec fn device_store_served<R, W>(
    before: Map<Seq<char>, Store<DeviceStoreValue>>,
    device: Seq<char>,
    read: &R,
    write: &W,
    store: Store<DeviceStoreValue>,
) -> bool where
    R: Fn(&String) -> ReadOutcome<DeviceStoreValue>,
    W: Fn(&String, &DeviceStoreValue) -> Result<(), String>,
 {
    if before.contains_key(device) {
        store == before[device]
    } else {
        device_load_gives(read, write, device, Ok(store))
    }
}

/// `error` is how a request for the document of `device` fails, given the
/// documents open `before`: the document is not open and its load failed.
pub open spec fn device_store_refused<R, W>(
    before: Map<Seq<char>, Store<DeviceStoreValue>>,
    device: Seq<char>,
    read: &R,
    write: &W,
    error: ErrorView,
) -> bool where
    R: Fn(&String) -> ReadOutcome<DeviceStoreValue>,
    W: Fn(&String, &DeviceStoreValue) -> Result<(), String>,
 {
    &&& !before.contains_key(device)
    &&& exists|cause: LoadError|
        {
            &&& #[trigger] device_load_gives(read, write, device, Err(cause))
            &&& error == (ErrorView::Load { device, profile: None, error: cause@ })
        }
}

/// `store` is what a request for the document of `profile` of `device`
/// hands out, given the documents open `before`.
pub open spec fn profile_store_served<R, W>(
    before: Map<(Seq<char>, Seq<char>), Store<ProfileStoreValue>>,
    device: DeviceInfoView,
    profile: Seq<char>,
    read: &R,
    write: &W,
    store: Store<ProfileStoreValue>,
) -> bool where
    R: Fn(&String) -> ReadOutcome<ProfileStoreValue>,
    W: Fn(&String, &ProfileStoreValue) -> Result<(), String>,
 {
    if before.contains_key((device.id, profile)) {
        store == before[(device.id, profile)]
    } else {
        profile_load_gives(read, write, device, profile, Ok(store))
    }
}

/// `error` is how a request for the document of `profile` of `device`
/// fails, given the documents open `before`.
pub open spec fn profile_store_refused<R, W>(
    before: Map<(Seq<char>, Seq<char>), Store<ProfileStoreValue>>,
    device: DeviceInfoView,
    profile: Seq<char>,
    read: &R,
    write: &W,
    error: ErrorView,
) -> bool where
    R: Fn(&String) -> ReadOutcome<ProfileStoreValue>,
    W: Fn(&String, &ProfileStoreValue) -> Result<(), String>,
 {
    &&& !before.contains_key((device.id, profile))
    &&& exists|cause: LoadError|
        {
            &&& #[trigger] profile_load_gives(read, write, device, profile, Err(cause))
            &&& error == (ErrorView::Load {
                device: device.id,
                profile: Some(profile),
                error: cause@,
            })
        }
}

/// The key of a profile document: the device and the profile.
#[derive(Debug, PartialEq, Eq)]
pub struct ProfileKey {
    pub device: String,
    pub profile: String,
}

impl View for ProfileKey {
    type V = (Seq<char>, Seq<char>);

    open spec fn view(&self) -> (Seq<char>, Seq<char>) {
        (self.device@, self.profile@)
    }
}

impl CacheKey for ProfileKey {
    fn same(&self, other: &Self) -> (same: bool) {
        self.device == other.device && self.profile == other.profile
    }

    fn duplicate(&self) -> (copy: Self) {
        ProfileKey { device: self.device.clone(), profile: self.profile.clone() }
    }
}

/// The documents of the devices opened so far.
pub struct DeviceStores {
    stores: StoreCache<String, DeviceStoreValue>,
}

/// The documents of the profiles opened so far.
pub struct ProfileStores {
    stores: StoreCache<ProfileKey, ProfileStoreValue>,
}

impl View for DeviceStores {
    type V = Map<Seq<char>, Store<DeviceStoreValue>>;

    closed spec fn view(&self) -> Map<Seq<char>, Store<DeviceStoreValue>> {
        self.stores@
    }
}

impl View for ProfileStores {
    type V = Map<(Seq<char>, Seq<char>), Store<ProfileStoreValue>>;

    closed spec fn view(&self) -> Map<(Seq<char>, Seq<char>), Store<ProfileStoreValue>> {
        self.stores@
    }
}

impl DeviceStores {
    /// Each device has one document.
    pub closed spec fn wf(&self) -> bool {
        self.stores.wf()
    }

    /// No document is open.
    pub fn new() -> (stores: Self)
        ensures
            stores.wf(),
            stores@ == Map::<Seq<char>, Store<DeviceStoreValue>>::empty(),
    {
        DeviceStores { stores: StoreCache::new() }
    }

    /// Whether the document of `device` is open.
    pub fn contains(&self, device: &String) -> (present: bool)
        ensures
            present == self@.contains_key(device@),
    {
        self.stores.contains(device)
    }

    /// The document of `device`. An open document is handed out as it
    /// stands in memory, unsaved changes included; `read` and `write` are
    /// not asked then, and need not be fit to be asked. Otherwise the
    /// document is loaded from the device's location, created there if
    /// nothing is kept yet, and stays open from then on. A document that
    /// fails to load is not opened, and the failure names the device.
    pub fn get_device_store<R, W>(&mut self, device: &String, read: &R, write: &W) -> (result:
        Result<&mut Store<DeviceStoreValue>, Error>) where
        R: Fn(&String) -> ReadOutcome<DeviceStoreValue>,
        W: Fn(&String, &DeviceStoreValue) -> Result<(), String>,

        requires
            old(self).wf(),
            !old(self)@.contains_key(device@) ==> reads_anywhere(read) && writes_anywhere(write),
        ensures
            final(self).wf(),
            match result {
                Ok(store) => {
                    &&& final(self)@ == old(self)@.insert(device@, *final(store))
                    &&& device_store_served(old(self)@, device@, read, write, *store)
                },
                Err(error) => {
                    &&& final(self)@ == old(self)@
                    &&& device_store_refused(old(self)@, device@, read, write, error@)
                },
            },
    {
        let loader = |key: &String| -> (loaded: Result<Store<DeviceStoreValue>, LoadError>)
            requires
                reads_anywhere(read),
                writes_anywhere(write),
            ensures
                device_load_gives(read, write, key@, loaded),
            {
                let location = device_location(key);
                let default = DeviceStoreValue::new();
                let loaded = Store::load(location, default, read, write);
                assert(load_gives(read, write, location, default, loaded));
                loaded
            };
        match self.stores.get_or_load(device, loader) {
            Ok(store) => Ok(store),
            Err(cause) => {
                assert(device_load_gives(read, write, device@, Err(cause)));
                Err(Error::Load { device: device.clone(), profile: None, error: cause })
            },
        }
    }
}

impl ProfileStores {
    /// Each profile of each device has one document.
    pub closed spec fn wf(&self) -> bool {
        self.stores.wf()
    }

    /// No document is open.
    pub fn new() -> (stores: Self)
        ensures
            stores.wf(),
            stores@ == Map::<(Seq<char>, Seq<char>), Store<ProfileStoreValue>>::empty(),
    {
        ProfileStores { stores: StoreCache::new() }
    }

    /// Whether the document of `profile` of the device `device` is open.
    pub fn contains(&self, device: &String, profile: &String) -> (present: bool)
        ensures
            present == self@.contains_key((device@, profile@)),
    {
        let key = ProfileKey { device: device.clone(), profile: profile.clone() };
        self.stores.contains(&key)
    }

    /// The document of `profile` of `device`. An open document is handed
    /// out as it stands in memory, unsaved changes included; `read` and
    /// `write` are not asked then, and need not be fit to be asked.
    /// Otherwise the document is loaded from the profile's location; where
    /// nothing is kept there yet, an empty grid of the device's size is
    /// created there. It stays open from then on. A document that fails
    /// to load is not opened, and the failure names device and profile.
    pub fn get_profile_store<R, W>(
        &mut self,
        device: &DeviceInfo,
        profile: &String,
        read: &R,
        write: &W,
    ) -> (result: Result<&mut Store<ProfileStoreValue>, Error>) where
        R: Fn(&String) -> ReadOutcome<ProfileStoreValue>,
        W: Fn(&String, &ProfileStoreValue) -> Result<(), String>,

        requires
            old(self).wf(),
            !old(self)@.contains_key((device@.id, profile@)) ==> reads_anywhere(read)
                && writes_anywhere(write),
        ensures
            final(self).wf(),
            match result {
                Ok(store) => {
                    &&& final(self)@ == old(self)@.insert((device@.id, profile@), *final(store))
                    &&& profile_store_served(old(self)@, device@, profile@, read, write, *store)
                },
                Err(error) => {
                    &&& final(self)@ == old(self)@
                    &&& profile_store_refused(old(self)@, device@, profile@, read, write, error@)
                },
            },
    {
        let key = ProfileKey { device: device.id.clone(), profile: profile.clone() };
        let loader = |_key: &ProfileKey| -> (loaded: Result<Store<ProfileStoreValue>, LoadError>)
            requires
                reads_anywhere(read),
                writes_anywhere(write),
            ensures
                profile_load_gives(read, write, device@, profile@, loaded),
            {
                let location = profile_location(device, profile);
                let default = ProfileStoreValue::empty(device.slots());
                let loaded = Store::load(location, default, read, write);
                assert(load_gives(read, write, location, default, loaded));
                loaded
            };
        match self.stores.get_or_load(&key, loader) {
            Ok(store) => Ok(store),
            Err(cause) => {
                assert(profile_load_gives(read, write, device@, profile@, Err(cause)));
                Err(
                    Error::Load {
                        device: device.id.clone(),
                        profile: Some(profile.clone()),
                        error: cause,
                    },
                )
            },
        }
    }
}

/// A device asked for twice is served the same store both times. After a
/// first request for `device` the cache holds the store handed out then,
/// as its holder `left` it. A second request cannot fail, and the store it
/// is handed is that very one, unsaved changes included, whatever reading
/// and writing would answer now.
pub proof fn lemma_device_requested_twice<R, W>(
    before: Map<Seq<char>, Store<DeviceStoreValue>>,
    device: Seq<char>,
    left: Store<DeviceStoreValue>,
    read: &R,
    write: &W,
    again: Store<DeviceStoreValue>,
    error: ErrorView,
) where
    R: Fn(&String) -> ReadOutcome<DeviceStoreValue>,
    W: Fn(&String, &DeviceStoreValue) -> Result<(), String>,

    ensures
        !device_store_refused(before.insert(device, left), device, read, write, error),
        device_store_served(before.insert(device, left), device, read, write, again) <==> again
            == left,
{
}

/// The same of a profile asked for twice.
pub proof fn lemma_profile_requested_twice<R, W>(
    before: Map<(Seq<char>, Seq<char>), Store<ProfileStoreValue>>,
    device: DeviceInfoView,
    profile: Seq<char>,
    left: Store<ProfileStoreValue>,
    read: &R,
    write: &W,
    again: Store<ProfileStoreValue>,
    error: ErrorView,
) where
    R: Fn(&String) -> ReadOutcome<ProfileStoreValue>,
    W: Fn(&String, &ProfileStoreValue) -> Result<(), String>,

    ensures
        !profile_store_refused(
            before.insert((device.id, profile), left),
            device,
            profile,
            read,
            write,
            error,
        ),
        profile_store_served(
            before.insert((device.id, profile), left),
            device,
            profile,
            read,
            write,
            again,
        ) <==> again == left,
{
}

} // verus!
