//! What the front end asks for: the devices, the profiles, the profile
//! selected on a device, and a new instance on the grid.
//!
//! Each operation is handed what it works on: the registry, the caches and
//! the two operations that read and write documents.

use vstd::prelude::*;
use crate::action::{Action, ActionContext, ActionInstance, ActionInstanceView};
use crate::catalog::{ActionCatalog, Category};
use crate::device::{DeviceInfo, DeviceRegistry, DeviceInfoView, resolved};
use crate::error::{Error, ErrorView, SaveError, Unresolved, UnresolvedView};
use crate::json::{array_document, failure_document, json_array, json_failure};
use crate::profile::{DeviceStoreValue, ProfileStoreValue, bound_grid, out_of_bounds};
use crate::store::{ReadOutcome, Store, save_gives};
use crate::stores::{
    DeviceStores,
    ProfileStores,
    device_store_refused,
    device_store_served,
    profile_store_refused,
    profile_store_served,
    reads_anywhere,
    writes_anywhere,
};

verus! {

/// What an operation reports after a save that went as `outcome` says.
pub open spec fn save_reported(outcome: Result<(), SaveError>) -> Result<(), Error> {
    match outcome {
        Ok(_) => Ok(()),
        Err(error) => Err(Error::Save(error)),
    }
}

/// Writes the document of `store` to its location. A failed write is
/// reported as a failure of the whole operation; the value in memory is
/// kept either way.
pub fn save<V, W>(store: &Store<V>, write: &W) -> (result: Result<(), Error>) where
    W: Fn(&String, &V) -> Result<(), String>,

    requires
        call_requires(write, (&store.location, &store.value)),
    ensures
        exists|outcome: Result<(), SaveError>|
            {
                &&& #[trigger] save_gives(write, *store, outcome)
                &&& result == save_reported(outcome)
            },
{
    match store.save(write) {
        Ok(_) => Ok(()),
        Err(error) => Err(Error::Save(error)),
    }
}

/// `store` with `profile` selected and all else as it was.
pub open spec fn with_selected(store: Store<DeviceStoreValue>, profile: String) -> Store<
    DeviceStoreValue,
> {
    Store {
        value: DeviceStoreValue { selected_profile: profile, settings: store.value.settings },
        location: store.location,
    }
}

/// The selection went through in memory: the document of `device` was
/// handed out, `profile` selected in it, and `result` reports how saving
/// the changed document went.
pub open spec fn selection_made<R, W>(
    before: Map<Seq<char>, Store<DeviceStoreValue>>,
    after: Map<Seq<char>, Store<DeviceStoreValue>>,
    device: Seq<char>,
    profile: String,
    read: &R,
    write: &W,
    result: Result<(), Error>,
) -> bool where
    R: Fn(&String) -> ReadOutcome<DeviceStoreValue>,
    W: Fn(&String, &DeviceStoreValue) -> Result<(), String>,
 {
    exists|served: Store<DeviceStoreValue>, outcome: Result<(), SaveError>|
        {
            &&& #[trigger] device_store_served(before, device, read, write, served)
            &&& after == before.insert(device, with_selected(served, profile))
            &&& #[trigger] save_gives(write, with_selected(served, profile), outcome)
            &&& result == save_reported(outcome)
        }
}

/// The selection did not take place: the document of `device` could not
/// be had, nothing changed, and `result` is that failure.
pub open spec fn selection_refused<R, W>(
    before: Map<Seq<char>, Store<DeviceStoreValue>>,
    after: Map<Seq<char>, Store<DeviceStoreValue>>,
    device: Seq<char>,
    read: &R,
    write: &W,
    result: Result<(), Error>,
) -> bool where
    R: Fn(&String) -> ReadOutcome<DeviceStoreValue>,
    W: Fn(&String, &DeviceStoreValue) -> Result<(), String>,
 {
    &&& after == before
    &&& match result {
        Ok(_) => false,
        Err(error) => device_store_refused(before, device, read, write, error@),
    }
}

/// Selects `profile` on `device` and saves the device's document. The
/// selection stands in memory even where the save fails; the failure is
/// reported. Where the document cannot be had, nothing happens.
pub fn set_selected_profile<R, W>(
    device_stores: &mut DeviceStores,
    device: &String,
    profile: &String,
    read: &R,
    write: &W,
) -> (result: Result<(), Error>) where
    R: Fn(&String) -> ReadOutcome<DeviceStoreValue>,
    W: Fn(&String, &DeviceStoreValue) -> Result<(), String>,

    requires
        old(device_stores).wf(),
        reads_anywhere(read),
        writes_anywhere(write),
    ensures
        final(device_stores).wf(),
        selection_made(
            old(device_stores)@,
            final(device_stores)@,
            device@,
            *profile,
            read,
            write,
            result,
        ) || selection_refused(
            old(device_stores)@,
            final(device_stores)@,
            device@,
            read,
            write,
            result,
        ),
{
    let store = match device_stores.get_device_store(device, read, write) {
        Ok(store) => store,
        Err(error) => {
            return Err(error);
        },
    };
    let ghost served = *store;
    store.value.selected_profile = profile.clone();
    assert(*store == with_selected(served, *profile));
    save(store, write)
}

/// The answer to a request for the profiles of a device, as JSON text:
/// the array of their names, or the object that reports why they could not
/// be listed.
pub fn get_profiles(listing: Result<Vec<String>, String>) -> (document: String)
    ensures
        document@ == match listing {
            Ok(names) => json_array(names.deep_view()),
            Err(cause) => json_failure(cause@),
        },
{
    match listing {
        Ok(names) => array_document(&names),
        Err(cause) => failure_document(cause.as_str()),
    }
}

/// A copy of every category that the catalog offers.
pub fn get_categories(catalog: &ActionCatalog) -> (categories: Vec<Category>)
    ensures
        categories.deep_view() == catalog@,
{
    catalog.snapshot()
}

/// A copy of every device that the registry knows.
pub fn get_devices(registry: &DeviceRegistry) -> (devices: Vec<DeviceInfo>)
    ensures
        devices.deep_view() == registry@,
{
    registry.snapshot()
}

/// What a request for the profile selected on `device` comes to. The
/// document of the device is had first, then the device is resolved, then
/// the document of the selected profile is had; the first of these that
/// fails ends the request with its failure. What was opened on the way
/// stays open.
pub open spec fn selected_profile_shown<DR, DW, PR, PW>(
    devices_before: Map<Seq<char>, Store<DeviceStoreValue>>,
    devices_after: Map<Seq<char>, Store<DeviceStoreValue>>,
    profiles_before: Map<(Seq<char>, Seq<char>), Store<ProfileStoreValue>>,
    profiles_after: Map<(Seq<char>, Seq<char>), Store<ProfileStoreValue>>,
    registry: Seq<DeviceInfoView>,
    device: Seq<char>,
    read_device: &DR,
    write_device: &DW,
    read_profile: &PR,
    write_profile: &PW,
    result: Result<ProfileStoreValue, Error>,
) -> bool where
    DR: Fn(&String) -> ReadOutcome<DeviceStoreValue>,
    DW: Fn(&String, &DeviceStoreValue) -> Result<(), String>,
    PR: Fn(&String) -> ReadOutcome<ProfileStoreValue>,
    PW: Fn(&String, &ProfileStoreValue) -> Result<(), String>,
 {
    ||| {
        &&& devices_after == devices_before
        &&& profiles_after == profiles_before
        &&& match result {
            Ok(_) => false,
            Err(error) => device_store_refused(
                devices_before,
                device,
                read_device,
                write_device,
                error@,
            ),
        }
    }
    ||| exists|served: Store<DeviceStoreValue>|
        {
            &&& #[trigger] device_store_served(
                devices_before,
                device,
                read_device,
                write_device,
                served,
            )
            &&& devices_after == devices_before.insert(device, served)
            &&& match resolved(registry, device) {
                None => {
                    &&& profiles_after == profiles_before
                    &&& match result {
                        Ok(_) => false,
                        Err(error) => error@ == ErrorView::Resolution(
                            UnresolvedView::Device(device),
                        ),
                    }
                },
                Some(info) => selected_profile_opened(
                    profiles_before,
                    profiles_after,
                    info,
                    served.value.selected_profile@,
                    read_profile,
                    write_profile,
                    result,
                ),
            }
        }
}

/// What a request for a copy of the document of `profile` of `device`
/// comes to: the copy, with the document open from then on, or the
/// failure to open it, with nothing changed.
pub open spec fn selected_profile_opened<PR, PW>(
    before: Map<(Seq<char>, Seq<char>), Store<ProfileStoreValue>>,
    after: Map<(Seq<char>, Seq<char>), Store<ProfileStoreValue>>,
    device: DeviceInfoView,
    profile: Seq<char>,
    read: &PR,
    write: &PW,
    result: Result<ProfileStoreValue, Error>,
) -> bool where
    PR: Fn(&String) -> ReadOutcome<ProfileStoreValue>,
    PW: Fn(&String, &ProfileStoreValue) -> Result<(), String>,
 {
    match result {
        Ok(value) => exists|served: Store<ProfileStoreValue>|
            {
                &&& #[trigger] profile_store_served(before, device, profile, read, write, served)
                &&& after == before.insert((device.id, profile), served)
                &&& value@ == served.value@
            },
        Err(error) => {
            &&& after == before
            &&& profile_store_refused(before, device, profile, read, write, error@)
        },
    }
}

/// A copy of the document of the profile that is selected on `device`.
pub fn get_selected_profile<DR, DW, PR, PW>(
    device_stores: &mut DeviceStores,
    profile_stores: &mut ProfileStores,
    registry: &DeviceRegistry,
    device: &String,
    read_device: &DR,
    write_device: &DW,
    read_profile: &PR,
    write_profile: &PW,
) -> (result: Result<ProfileStoreValue, Error>) where
    DR: Fn(&String) -> ReadOutcome<DeviceStoreValue>,
    DW: Fn(&String, &DeviceStoreValue) -> Result<(), String>,
    PR: Fn(&String) -> ReadOutcome<ProfileStoreValue>,
    PW: Fn(&String, &ProfileStoreValue) -> Result<(), String>,

    requires
        old(device_stores).wf(),
        old(profile_stores).wf(),
        registry.wf(),
        reads_anywhere(read_device),
        writes_anywhere(write_device),
        reads_anywhere(read_profile),
        writes_anywhere(write_profile),
    ensures
        final(device_stores).wf(),
        final(profile_stores).wf(),
        selected_profile_shown(
            old(device_stores)@,
            final(device_stores)@,
            old(profile_stores)@,
            final(profile_stores)@,
            registry@,
            device@,
            read_device,
            write_device,
            read_profile,
            write_profile,
            result,
        ),
{
    let selected = match device_stores.get_device_store(device, read_device, write_device) {
        Ok(store) => store.value.selected_profile.clone(),
        Err(error) => {
            return Err(error);
        },
    };
    let info = match registry.resolve(device) {
        Some(info) => info,
        None => {
            return Err(Error::Resolution(Unresolved::Device(device.clone())));
        },
    };
    match profile_stores.get_profile_store(&info, &selected, read_profile, write_profile) {
        Ok(store) => Ok(store.value.clone()),
        Err(error) => Err(error),
    }
}

/// What binding `action` in `context` comes to. The device of the context
/// is resolved first, then the document of its profile is had, then the
/// instance is bound, then the document is saved; the first of these that
/// fails ends the request with its failure. A failed save leaves the
/// instance bound in memory.
pub open spec fn instance_created<R, W>(
    before: Map<(Seq<char>, Seq<char>), Store<ProfileStoreValue>>,
    after: Map<(Seq<char>, Seq<char>), Store<ProfileStoreValue>>,
    registry: Seq<DeviceInfoView>,
    action: &Action,
    context: &ActionContext,
    read: &R,
    write: &W,
    result: Result<ActionInstance, Error>,
) -> bool where
    R: Fn(&String) -> ReadOutcome<ProfileStoreValue>,
    W: Fn(&String, &ProfileStoreValue) -> Result<(), String>,
 {
    match resolved(registry, context@.device) {
        None => {
            &&& after == before
            &&& match result {
                Ok(_) => false,
                Err(error) => error@ == ErrorView::Resolution(
                    UnresolvedView::Device(context@.device),
                ),
            }
        },
        Some(info) => instance_created_on(before, after, info, action, context, read, write, result),
    }
}

/// What binding `action` in `context` comes to once the context's device
/// is resolved to `device`.
pub open spec fn instance_created_on<R, W>(
    before: Map<(Seq<char>, Seq<char>), Store<ProfileStoreValue>>,
    after: Map<(Seq<char>, Seq<char>), Store<ProfileStoreValue>>,
    device: DeviceInfoView,
    action: &Action,
    context: &ActionContext,
    read: &R,
    write: &W,
    result: Result<ActionInstance, Error>,
) -> bool where
    R: Fn(&String) -> ReadOutcome<ProfileStoreValue>,
    W: Fn(&String, &ProfileStoreValue) -> Result<(), String>,
 {
    ||| {
        &&& after == before
        &&& match result {
            Ok(_) => false,
            Err(error) => profile_store_refused(
                before,
                device,
                context@.profile,
                read,
                write,
                error@,
            ),
        }
    }
    ||| exists|served: Store<ProfileStoreValue>|
        {
            &&& #[trigger] profile_store_served(
                before,
                device,
                context@.profile,
                read,
                write,
                served,
            )
            &&& instance_bound(before, after, device, served, action, context, write, result)
        }
}

/// What binding `action` in `context` on the document `served` comes to.
pub open spec fn instance_bound<W>(
    before: Map<(Seq<char>, Seq<char>), Store<ProfileStoreValue>>,
    after: Map<(Seq<char>, Seq<char>), Store<ProfileStoreValue>>,
    device: DeviceInfoView,
    served: Store<ProfileStoreValue>,
    action: &Action,
    context: &ActionContext,
    write: &W,
    result: Result<ActionInstance, Error>,
) -> bool where W: Fn(&String, &ProfileStoreValue) -> Result<(), String> {
    if context.position >= served.value@.len() {
        &&& after == before.insert((device.id, context@.profile), served)
        &&& match result {
            Ok(_) => false,
            Err(error) => error == out_of_bounds(context.position, served.value.keys@.len() as usize),
        }
    } else {
        exists|changed: Store<ProfileStoreValue>, outcome: Result<(), SaveError>|
            {
                &&& changed.location == served.location
                &&& changed.value@ == bound_grid(served.value@, action@, context@)
                &&& after == before.insert((device.id, context@.profile), changed)
                &&& #[trigger] save_gives(write, changed, outcome)
                &&& match result {
                    Ok(instance) => outcome is Ok && instance@ == ActionInstanceView::bound(
                        action@,
                        context@,
                    ),
                    Err(error) => match error {
                        Error::Save(cause) => outcome == Err::<(), SaveError>(cause),
                        _ => false,
                    },
                }
            }
    }
}

/// Binds `action` in `context` on the open profile document `store`: a new
/// instance takes the slot at the context's position, whatever stood
/// there. Returns a copy of the instance. Nothing is saved. A position
/// that the grid does not have is refused and the document left as it is.
pub fn bind_instance(
    store: &mut Store<ProfileStoreValue>,
    action: &Action,
    context: &ActionContext,
) -> (bound: Result<ActionInstance, Error>)
    ensures
        final(store).location == old(store).location,
        match bound {
            Ok(instance) => {
                &&& context.position < old(store).value@.len()
                &&& instance@ == ActionInstanceView::bound(action@, context@)
                &&& final(store).value@ == bound_grid(old(store).value@, action@, context@)
            },
            Err(error) => {
                &&& context.position >= old(store).value@.len()
                &&& error == out_of_bounds(
                    context.position,
                    old(store).value.keys@.len() as usize,
                )
                &&& *final(store) == *old(store)
            },
        },
{
    store.value.bind(action, context)
}

/// Binds `action` in `context` and saves the profile's document. Returns
/// a copy of the new instance.
pub fn create_instance<R, W>(
    profile_stores: &mut ProfileStores,
    registry: &DeviceRegistry,
    action: &Action,
    context: &ActionContext,
    read: &R,
    write: &W,
) -> (result: Result<ActionInstance, Error>) where
    R: Fn(&String) -> ReadOutcome<ProfileStoreValue>,
    W: Fn(&String, &ProfileStoreValue) -> Result<(), String>,

    requires
        old(profile_stores).wf(),
        registry.wf(),
        reads_anywhere(read),
        writes_anywhere(write),
    ensures
        final(profile_stores).wf(),
        instance_created(
            old(profile_stores)@,
            final(profile_stores)@,
            registry@,
            action,
            context,
            read,
            write,
            result,
        ),
{
    let info = match registry.resolve(&context.device) {
        Some(info) => info,
        None => {
            return Err(Error::Resolution(Unresolved::Device(context.device.clone())));
        },
    };
    let store = match profile_stores.get_profile_store(&info, &context.profile, read, write) {
        Ok(store) => store,
        Err(error) => {
            return Err(error);
        },
    };
    let ghost served = *store;
    let ghost before = old(profile_stores)@;
    let instance = match bind_instance(store, action, context) {
        Ok(instance) => instance,
        Err(error) => {
            assert(instance_created_on(
                before,
                before.insert((info@.id, context@.profile), served),
                info@,
                action,
                context,
                read,
                write,
                Err(error),
            ));
            return Err(error);
        },
    };
    let ghost changed = *store;
    let result = match save(store, write) {
        Ok(_) => Ok(instance),
        Err(error) => Err(error),
    };
    assert(instance_created_on(
        before,
        before.insert((info@.id, context@.profile), changed),
        info@,
        action,
        context,
        read,
        write,
        result,
    ));
    result
}

} // verus!
