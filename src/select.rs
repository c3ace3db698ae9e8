use vstd::prelude::*;
use crate::model::{BootstrapError, DeviceClass};

verus! {

/// `classes` holds a discrete GPU.
pub open spec fn has_discrete(classes: Seq<DeviceClass>) -> bool {
    exists|j: int| 0 <= j < classes.len() && classes[j] == DeviceClass::DiscreteGpu
}

/// `i` is the position of the first discrete GPU in `classes`.
pub open spec fn is_first_discrete(classes: Seq<DeviceClass>, i: int) -> bool {
    &&& 0 <= i < classes.len()
    &&& classes[i] == DeviceClass::DiscreteGpu
    &&& forall|j: int| 0 <= j < i ==> classes[j] != DeviceClass::DiscreteGpu
}

/// What the device selection policy answers for the enumerated `classes`.
pub open spec fn device_choice(classes: Seq<DeviceClass>) -> Result<usize, BootstrapError> {
    if classes.len() == 0 {
        Err(BootstrapError::NoDeviceFound)
    } else if has_discrete(classes) {
        Ok(choose|i: usize| is_first_discrete(classes, i as int))
    } else {
        Err(BootstrapError::NoSuitableDevice)
    }
}

/// Picks the first discrete GPU, in enumeration order, among the classes of
/// the enumerated devices, and returns its position.
pub fn select_device(classes: &Vec<DeviceClass>) -> (r: Result<usize, BootstrapError>)
    ensures
        r == device_choice(classes@),
        classes@.len() == 0 <==> r == Err::<usize, BootstrapError>(BootstrapError::NoDeviceFound),
        (classes@.len() > 0 && !has_discrete(classes@)) <==> r == Err::<usize, BootstrapError>(
            BootstrapError::NoSuitableDevice,
        ),
        forall|i: usize| r == Ok::<usize, BootstrapError>(i) <==> is_first_discrete(classes@, i as int),
{
    if classes.len() == 0 {
        return Err(BootstrapError::NoDeviceFound);
    }
    let mut k: usize = 0;
    while k < classes.len()
        invariant
            0 <= k <= classes@.len(),
            forall|j: int| 0 <= j < k ==> classes@[j] != DeviceClass::DiscreteGpu,
        decreases classes@.len() - k,
    {
        if classes[k] == DeviceClass::DiscreteGpu {
            proof {
                assert(is_first_discrete(classes@, k as int));
                lemma_first_discrete_unique(classes@, k as int);
            }
            return Ok(k);
        }
        k = k + 1;
    }
    Err(BootstrapError::NoSuitableDevice)
}

/// At most one position is the first discrete GPU.
pub proof fn lemma_first_discrete_unique(classes: Seq<DeviceClass>, i: int)
    requires
        is_first_discrete(classes, i),
        classes.len() <= usize::MAX,
    ensures
        has_discrete(classes),
        forall|j: int| #[trigger] is_first_discrete(classes, j) ==> j == i,
        device_choice(classes) == Ok::<usize, BootstrapError>(i as usize),
{
    let c = choose|k: usize| is_first_discrete(classes, k as int);
    assert(is_first_discrete(classes, (i as usize) as int));
    assert(c as int == i);
}

} // verus!
