//! Devices and the registry that knows them.

use vstd::prelude::*;

verus! {

/// What is known of a device: its id, its name and the shape of its grid.
#[derive(Debug, PartialEq, Eq)]
pub struct DeviceInfo {
    pub id: String,
    pub name: String,
    pub rows: u8,
    pub columns: u8,
}

pub struct DeviceInfoView {
    pub id: Seq<char>,
    pub name: Seq<char>,
    pub rows: nat,
    pub columns: nat,
}

impl DeviceInfoView {
    /// The number of positions on the grid.
    pub open spec fn slots(self) -> nat {
        self.rows * self.columns
    }
}

impl View for DeviceInfo {
    type V = DeviceInfoView;

    open spec fn view(&self) -> DeviceInfoView {
        DeviceInfoView {
            id: self.id@,
            name: self.name@,
            rows: self.rows as nat,
            columns: self.columns as nat,
        }
    }
}

impl DeepView for DeviceInfo {
    type V = DeviceInfoView;

    open spec fn deep_view(&self) -> DeviceInfoView {
        self.view()
    }
}

impl Clone for DeviceInfo {
    fn clone(&self) -> (copy: Self)
        ensures
            copy@ == self@,
    {
        DeviceInfo {
            id: self.id.clone(),
            name: self.name.clone(),
            rows: self.rows,
            columns: self.columns,
        }
    }
}

impl DeviceInfo {
    /// The number of positions on the grid.
    pub fn slots(&self) -> (count: usize)
        ensures
            count == self@.slots(),
    {
        let rows: usize = self.rows as usize;
        let columns: usize = self.columns as usize;
        assert(rows * columns <= 255 * 255) by (nonlinear_arith)
            requires
                rows <= 255,
                columns <= 255,
        ;
        rows * columns
    }
}

/// The devices known, each id once, in the order they were first registered.
pub struct DeviceRegistry {
    devices: Vec<DeviceInfo>,
}

/// No id occurs twice.
pub open spec fn distinct_ids(devices: Seq<DeviceInfoView>) -> bool {
    forall|i: int, j: int|
        0 <= i < j < devices.len() ==> (#[trigger] devices[i]).id != (#[trigger] devices[j]).id
}

/// The place of the device `id` among `devices`, if it is there.
pub open spec fn place_of(devices: Seq<DeviceInfoView>, id: Seq<char>) -> Option<int> {
    if exists|i: int| 0 <= i < devices.len() && devices[i].id == id {
        Some(choose|i: int| 0 <= i < devices.len() && devices[i].id == id)
    } else {
        None
    }
}

/// `devices` after `info` was registered: in the place of the device of
/// the same id, or else at the end.
pub open spec fn registered(devices: Seq<DeviceInfoView>, info: DeviceInfoView) -> Seq<
    DeviceInfoView,
> {
    match place_of(devices, info.id) {
        Some(i) => devices.update(i, info),
        None => devices.push(info),
    }
}

/// What resolving `id` among `devices` gives.
pub open spec fn resolved(devices: Seq<DeviceInfoView>, id: Seq<char>) -> Option<DeviceInfoView> {
    match place_of(devices, id) {
        Some(i) => Some(devices[i]),
        None => None,
    }
}

impl View for DeviceRegistry {
    type V = Seq<DeviceInfoView>;

    closed spec fn view(&self) -> Seq<DeviceInfoView> {
        self.devices.deep_view()
    }
}

impl DeviceRegistry {
    /// Each id has one entry.
    pub closed spec fn wf(&self) -> bool {
        distinct_ids(self@)
    }

    /// A registry that knows no device.
    pub fn new() -> (registry: Self)
        ensures
            registry.wf(),
            registry@ == Seq::<DeviceInfoView>::empty(),
    {
        let registry = DeviceRegistry { devices: Vec::new() };
        assert(registry@ =~= Seq::<DeviceInfoView>::empty());
        registry
    }

    fn position(&self, id: &String) -> (found: Option<usize>)
        requires
            self.wf(),
        ensures
            match found {
                Some(i) => place_of(self@, id@) == Some(i as int) && i < self.devices@.len()
                    && self.devices@[i as int]@.id == id@,
                None => place_of(self@, id@) is None,
            },
    {
        let mut i: usize = 0;
        while i < self.devices.len()
            invariant
                self.wf(),
                i <= self.devices@.len(),
                self@.len() == self.devices@.len(),
                forall|j: int| 0 <= j < i ==> (#[trigger] self@[j]).id != id@,
            decreases self.devices@.len() - i,
        {
            if self.devices[i].id == *id {
                proof {
                    let view = self@;
                    assert(view[i as int].id == id@);
                    let chosen = choose|j: int| 0 <= j < view.len() && view[j].id == id@;
                    if chosen < i {
                        assert(view[chosen].id != view[i as int].id);
                    } else if chosen > i {
                        assert(view[i as int].id != view[chosen].id);
                    }
                }
                return Some(i);
            }
            i += 1;
        }
        None
    }

    /// The device of this id, if it is registered.
    pub fn resolve(&self, id: &String) -> (device: Option<DeviceInfo>)
        requires
            self.wf(),
        ensures
            device.deep_view() == resolved(self@, id@),
            device matches Some(info) ==> info@.id == id@,
    {
        match self.position(id) {
            Some(i) => Some(self.devices[i].clone()),
            None => None,
        }
    }

    /// Makes `info` known: it takes the place of the device of the same
    /// id, or else is added after those known so far.
    pub fn register(&mut self, info: DeviceInfo)
        requires
            old(self).wf(),
        ensures
            final(self).wf(),
            final(self)@ == registered(old(self)@, info@),
            resolved(final(self)@, info@.id) == Some(info@),
    {
        let ghost before = self@;
        match self.position(&info.id) {
            Some(i) => {
                self.devices.set(i, info);
                proof {
                    let after = self@;
                    assert(after =~= before.update(i as int, info@));
                    assert forall|a: int, b: int| 0 <= a < b < after.len() implies (
                    #[trigger] after[a]).id != (#[trigger] after[b]).id by {
                        assert(before[a].id != before[b].id);
                    }
                    lemma_place(after, i as int);
                }
            },
            None => {
                self.devices.push(info);
                proof {
                    let after = self@;
                    assert(after =~= before.push(info@));
                    assert forall|a: int, b: int| 0 <= a < b < after.len() implies (
                    #[trigger] after[a]).id != (#[trigger] after[b]).id by {
                        if b == before.len() {
                            assert(before[a].id != info@.id);
                        } else {
                            assert(before[a].id != before[b].id);
                        }
                    }
                    lemma_place(after, before.len() as int);
                }
            },
        }
    }

    /// The number of devices known.
    pub fn len(&self) -> (count: usize)
        ensures
            count == self@.len(),
    {
        self.devices.len()
    }

    /// A copy of every device known, in order.
    pub fn snapshot(&self) -> (devices: Vec<DeviceInfo>)
        ensures
            devices.deep_view() == self@,
    {
        let mut devices: Vec<DeviceInfo> = Vec::new();
        let mut i: usize = 0;
        while i < self.devices.len()
            invariant
                i <= self.devices@.len(),
                devices@.len() == i,
                forall|j: int| 0 <= j < i ==> devices@[j]@ == self.devices@[j]@,
            decreases self.devices@.len() - i,
        {
            devices.push(self.devices[i].clone());
            i += 1;
        }
        assert(devices.deep_view() =~= self@);
        devices
    }
}

/// Among distinct ids, a device is found at its own place.
pub proof fn lemma_place(devices: Seq<DeviceInfoView>, i: int)
    requires
        distinct_ids(devices),
        0 <= i < devices.len(),
    ensures
        place_of(devices, devices[i].id) == Some(i),
        resolved(devices, devices[i].id) == Some(devices[i]),
{
    let id = devices[i].id;
    let chosen = choose|j: int| 0 <= j < devices.len() && devices[j].id == id;
    if chosen < i {
        assert(devices[chosen].id != devices[i].id);
    } else if chosen > i {
        assert(devices[i].id != devices[chosen].id);
    }
}

} // verus!
