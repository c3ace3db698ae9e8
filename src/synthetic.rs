use vstd::prelude::*;
use crate::model::{BootstrapError, DeviceClass, QueueFamily};
use crate::queue::{queue_choice, select_queue};
use crate::select::{device_choice, is_first_discrete, select_device};

verus! {

/// A device together with the queue family chosen on it.
#[derive(Clone, Copy, Debug, PartialEq, Eq, Structural)]
pub struct Selection {
    pub device: usize,
    pub queue_family: u32,
}

/// A driver that answers capability queries from fixed tables: the class of
/// each device, the queue families of each device, and for each family what
/// the presentation query gives (`None` where that query fails).
pub struct SyntheticDriver {
    pub devices: Vec<DeviceClass>,
    pub families: Vec<Vec<QueueFamily>>,
    pub presentation: Vec<Vec<Option<bool>>>,
}

impl SyntheticDriver {
    /// The tables agree on the number of devices and of families per device.
    pub open spec fn wf(&self) -> bool {
        &&& self.families@.len() == self.devices@.len()
        &&& self.presentation@.len() == self.devices@.len()
        &&& forall|d: int| 0 <= d < self.devices@.len() ==> (#[trigger] self.presentation@[d])@.len()
            == self.families@[d]@.len()
        &&& forall|d: int| 0 <= d < self.devices@.len() ==> (#[trigger] self.families@[d])@.len()
            <= u32::MAX
    }

    pub open spec fn spec_families(&self, d: int) -> Seq<QueueFamily> {
        self.families@[d]@
    }

    pub open spec fn spec_answers(&self, d: int) -> Seq<Option<bool>> {
        self.presentation@[d]@
    }

    /// What a full bootstrap against this driver yields: the device policy
    /// on the device classes, then the queue search on the chosen device.
    pub open spec fn outcome(&self) -> Result<Selection, BootstrapError> {
        match device_choice(self.devices@) {
            Err(e) => Err(e),
            Ok(d) => match queue_choice(self.spec_families(d as int), self.spec_answers(d as int)) {
                Err(e) => Err(e),
                Ok(q) => Ok(Selection { device: d, queue_family: q }),
            },
        }
    }

    /// Enumerates the devices' classes, in the driver's order. Calling it
    /// again on an unchanged driver gives the same sequence.
    pub fn list_devices(&self) -> (r: Vec<DeviceClass>)
        ensures
            r@ == self.devices@,
    {
        let mut r: Vec<DeviceClass> = Vec::new();
        let mut i: usize = 0;
        while i < self.devices.len()
            invariant
                i <= self.devices@.len(),
                r@ == self.devices@.subrange(0, i as int),
            decreases self.devices@.len() - i,
        {
            r.push(self.devices[i]);
            i = i + 1;
        }
        assert(r@ =~= self.devices@);
        r
    }

    /// Enumerates the queue families of a device, indexed from 0. Calling it
    /// again on an unchanged driver gives the same sequence.
    pub fn list_queue_families(&self, device: usize) -> (r: Vec<QueueFamily>)
        requires
            self.wf(),
            device < self.devices@.len(),
        ensures
            r@ == self.spec_families(device as int),
    {
        let fams = &self.families[device];
        let mut r: Vec<QueueFamily> = Vec::new();
        let mut i: usize = 0;
        while i < fams.len()
            invariant
                i <= fams@.len(),
                r@ == fams@.subrange(0, i as int),
            decreases fams@.len() - i,
        {
            r.push(fams[i]);
            i = i + 1;
        }
        assert(r@ =~= fams@);
        r
    }

    /// Whether a queue family of a device can present; `QueryFailed` where the
    /// table says the query fails.
    pub fn supports_presentation(&self, device: usize, index: usize) -> (r: Result<bool, BootstrapError>)
        requires
            self.wf(),
            device < self.devices@.len(),
            index < self.spec_families(device as int).len(),
        ensures
            r == (match self.spec_answers(device as int)[index as int] {
                Some(b) => Ok::<bool, BootstrapError>(b),
                None => Err(BootstrapError::QueryFailed),
            }),
    {
        match self.presentation[device][index] {
            Some(b) => Ok(b),
            None => Err(BootstrapError::QueryFailed),
        }
    }

    /// Runs the whole bootstrap against this driver: enumerate the devices,
    /// pick the first discrete GPU, enumerate its queue families, and search
    /// them for one that is graphics-capable and can present. The first
    /// failure ends the run.
    pub fn bootstrap(&self) -> (r: Result<Selection, BootstrapError>)
        requires
            self.wf(),
        ensures
            r == self.outcome(),
    {
        let classes = self.list_devices();
        match select_device(&classes) {
            Err(e) => Err(e),
            Ok(d) => {
                assert(is_first_discrete(classes@, d as int));
                assert(self.presentation@[d as int]@.len() == self.families@[d as int]@.len());
                let fams = self.list_queue_families(d);
                match select_queue(&fams, &self.presentation[d]) {
                    Err(e) => Err(e),
                    Ok(q) => Ok(Selection { device: d, queue_family: q }),
                }
            },
        }
    }
}

} // verus!
