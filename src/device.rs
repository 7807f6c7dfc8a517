use crate::descriptor::Fingerprint;
use crate::error::WalletError;
use vstd::prelude::*;

verus! {

/// What the wallet knows of one connected signing device.
pub struct DeviceInfo {
    pub model: Seq<char>,
    pub fingerprint: Fingerprint,
    pub path: Seq<char>,
}

/// A connected signing device: its model, master-key fingerprint and the
/// handle of its connection.
#[derive(Clone, Debug)]
pub struct SlapsDevice {
    model: String,
    fingerprint: Fingerprint,
    path: String,
}

impl View for SlapsDevice {
    type V = DeviceInfo;

    closed spec fn view(&self) -> DeviceInfo {
        DeviceInfo { model: self.model@, fingerprint: self.fingerprint, path: self.path@ }
    }
}

impl SlapsDevice {
    pub fn new(model: String, fingerprint: Fingerprint, path: String) -> (r: SlapsDevice)
        ensures
            r@ == (DeviceInfo { model: model@, fingerprint, path: path@ }),
    {
        SlapsDevice { model, fingerprint, path }
    }

    pub fn get_model(&self) -> (r: String)
        ensures
            r@ == self@.model,
    {
        self.model.clone()
    }

    pub fn get_fingerprint(&self) -> (r: Fingerprint)
        ensures
            r == self@.fingerprint,
    {
        self.fingerprint
    }

    pub fn get_path(&self) -> (r: String)
        ensures
            r@ == self@.path,
    {
        self.path.clone()
    }

    /// A copy with the same model, fingerprint and path.
    pub fn duplicate(&self) -> (r: SlapsDevice)
        ensures
            r@ == self@,
    {
        SlapsDevice { model: self.model.clone(), fingerprint: self.fingerprint, path: self.path.clone() }
    }
}

/// The devices as the wallet sees them.
pub open spec fn device_views(devices: Seq<SlapsDevice>) -> Seq<DeviceInfo> {
    devices.map_values(|d: SlapsDevice| d@)
}

/// No two devices share a fingerprint.
pub open spec fn unique_fingerprints(devices: Seq<DeviceInfo>) -> bool {
    forall|i: int, j: int|
        0 <= i < j < devices.len() ==> devices[i].fingerprint != devices[j].fingerprint
}

/// Whether some device has the fingerprint.
pub open spec fn has_fingerprint(devices: Seq<DeviceInfo>, f: Fingerprint) -> bool {
    exists|i: int| 0 <= i < devices.len() && devices[i].fingerprint == f
}

/// The devices in order, each kept only when no earlier one has its fingerprint.
pub open spec fn first_per_fingerprint(devices: Seq<DeviceInfo>) -> Seq<DeviceInfo>
    decreases devices.len(),
{
    if devices.len() == 0 {
        seq![]
    } else {
        let kept = first_per_fingerprint(devices.drop_last());
        if has_fingerprint(kept, devices.last().fingerprint) {
            kept
        } else {
            kept.push(devices.last())
        }
    }
}

proof fn lemma_views_push(s: Seq<SlapsDevice>, d: SlapsDevice)
    ensures
        device_views(s.push(d)) == device_views(s).push(d@),
{
    assert(device_views(s.push(d)) =~= device_views(s).push(d@));
}

/// One snapshot of the connected devices, in enumeration order, with unique
/// fingerprints.
#[derive(Debug)]
pub struct SlapsDevices {
    devices: Vec<SlapsDevice>,
}

impl View for SlapsDevices {
    type V = Seq<DeviceInfo>;

    closed spec fn view(&self) -> Seq<DeviceInfo> {
        device_views(self.devices@)
    }
}

impl SlapsDevices {
    #[verifier::type_invariant]
    spec fn fingerprints_unique(&self) -> bool {
        unique_fingerprints(device_views(self.devices@))
    }

    /// An empty registry.
    pub fn new() -> (r: SlapsDevices)
        ensures
            r@ == Seq::<DeviceInfo>::empty(),
    {
        let r = SlapsDevices { devices: Vec::new() };
        assert(r@ =~= Seq::<DeviceInfo>::empty());
        r
    }

    /// Replaces the snapshot with the outcome of an enumeration: the devices
    /// found, keeping the first of any that share a fingerprint, or, when the
    /// enumeration failed, no device at all and `EnumerationFailure`.
    pub fn refresh(&mut self, enumerated: Option<Vec<SlapsDevice>>) -> (r: Result<(), WalletError>)
        ensures
            match enumerated {
                Some(found) => r is Ok && final(self)@ == first_per_fingerprint(device_views(found@)),
                None => r == Err::<(), WalletError>(WalletError::EnumerationFailure)
                    && final(self)@ == Seq::<DeviceInfo>::empty(),
            },
            unique_fingerprints(final(self)@),
    {
        match enumerated {
            Some(found) => {
                let kept = keep_first_per_fingerprint(&found);
                *self = SlapsDevices { devices: kept };
                proof {
                    use_type_invariant(&*self);
                }
                Ok(())
            },
            None => {
                *self = SlapsDevices::new();
                proof {
                    use_type_invariant(&*self);
                }
                Err(WalletError::EnumerationFailure)
            },
        }
    }

    /// The models of the devices, in snapshot order.
    pub fn list_models(&self) -> (r: Vec<String>)
        ensures
            r@.len() == self@.len(),
            forall|i: int| 0 <= i < r@.len() ==> r@[i]@ == self@[i].model,
    {
        let mut out: Vec<String> = Vec::new();
        let mut i: usize = 0;
        while i < self.devices.len()
            invariant
                i <= self.devices@.len(),
                out@.len() == i,
                forall|k: int| 0 <= k < i ==> out@[k]@ == self@[k].model,
            decreases self.devices@.len() - i,
        {
            out.push(self.devices[i].get_model());
            i = i + 1;
        }
        out
    }

    /// A copy of the snapshot, in order.
    pub fn list_devices(&self) -> (r: Vec<SlapsDevice>)
        ensures
            device_views(r@) == self@,
    {
        let mut out: Vec<SlapsDevice> = Vec::new();
        let mut i: usize = 0;
        while i < self.devices.len()
            invariant
                i <= self.devices@.len(),
                device_views(out@) =~= device_views(self.devices@.subrange(0, i as int)),
            decreases self.devices@.len() - i,
        {
            let ghost before = out@;
            let d = self.devices[i].duplicate();
            out.push(d);
            proof {
                lemma_views_push(before, d);
                lemma_views_push(self.devices@.subrange(0, i as int), self.devices@[i as int]);
                assert(self.devices@.subrange(0, i as int).push(self.devices@[i as int])
                    =~= self.devices@.subrange(0, i as int + 1));
            }
            i = i + 1;
        }
        assert(self.devices@.subrange(0, i as int) =~= self.devices@);
        out
    }

    /// The device with the fingerprint, or `DeviceNotFound`.
    pub fn get_device_by_fingerprint(&self, fingerprint: Fingerprint) -> (r: Result<&SlapsDevice, WalletError>)
        ensures
            r is Ok <==> has_fingerprint(self@, fingerprint),
            r matches Ok(d) ==> d@.fingerprint == fingerprint
                && exists|i: int| 0 <= i < self@.len() && self@[i] == d@,
            r matches Err(e) ==> e == WalletError::DeviceNotFound,
    {
        let mut i: usize = 0;
        while i < self.devices.len()
            invariant
                i <= self.devices@.len(),
                forall|k: int| 0 <= k < i ==> self@[k].fingerprint != fingerprint,
            decreases self.devices@.len() - i,
        {
            if self.devices[i].fingerprint == fingerprint {
                assert(self@[i as int] == self.devices@[i as int]@);
                return Ok(&self.devices[i]);
            }
            i = i + 1;
        }
        Err(WalletError::DeviceNotFound)
    }
}

fn keep_first_per_fingerprint(found: &Vec<SlapsDevice>) -> (r: Vec<SlapsDevice>)
    ensures
        device_views(r@) == first_per_fingerprint(device_views(found@)),
        unique_fingerprints(device_views(r@)),
{
    let mut out: Vec<SlapsDevice> = Vec::new();
    let mut i: usize = 0;
    assert(device_views(found@).subrange(0, 0) =~= Seq::<DeviceInfo>::empty());
    while i < found.len()
        invariant
            i <= found@.len(),
            device_views(out@) =~= first_per_fingerprint(device_views(found@).subrange(0, i as int)),
            unique_fingerprints(device_views(out@)),
        decreases found@.len() - i,
    {
        let f = found[i].fingerprint;
        let mut seen = false;
        let mut j: usize = 0;
        while j < out.len()
            invariant
                i < found@.len(),
                j <= out@.len(),
                seen <==> exists|k: int| 0 <= k < j && device_views(out@)[k].fingerprint == f,
            decreases out@.len() - j,
        {
            assert(device_views(out@)[j as int] == out@[j as int]@);
            if out[j].fingerprint == f {
                seen = true;
            }
            j = j + 1;
        }
        let ghost prefix = device_views(found@).subrange(0, i as int + 1);
        assert(prefix.drop_last() =~= device_views(found@).subrange(0, i as int));
        assert(prefix.last() == found@[i as int]@);
        assert(has_fingerprint(device_views(out@), f) == seen);
        if !seen {
            let ghost before = out@;
            let d = found[i].duplicate();
            out.push(d);
            proof {
                lemma_views_push(before, d);
                assert(forall|k: int|
                    0 <= k < before.len() ==> device_views(before)[k].fingerprint != f);
            }
        }
        i = i + 1;
    }
    assert(device_views(found@).subrange(0, found@.len() as int) =~= device_views(found@));
    out
}

} // verus!
