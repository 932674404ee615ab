use vstd::prelude::*;

verus! {

/// What a physical device reports of one of its queue families.
#[derive(Clone, Copy, Debug, PartialEq, Eq, Structural)]
pub struct QueueFamilyInfo {
    pub supports_graphics: bool,
    pub supports_present: bool,
    pub queue_count: u32,
}

/// What a physical device reports that device selection looks at.
pub struct DeviceInfo {
    pub queue_families: Vec<QueueFamilyInfo>,
    /// Whether the device offers the swapchain extension.
    pub supports_swapchain: bool,
}

/// Why no device could be set up.
#[derive(Clone, Copy, Debug, PartialEq, Eq, Structural)]
pub enum DeviceError {
    /// No device has a queue family that can both draw and present.
    NoDevice,
    /// Devices with such a queue family exist, but none offers the extensions needed.
    DeviceCreation,
}

/// The device and queue family chosen to draw and present with.
#[derive(Clone, Copy, Debug, PartialEq, Eq, Structural)]
pub struct DeviceChoice {
    pub device: usize,
    pub queue_family: usize,
}

/// A queue family can serve the frame loop when it draws, presents and has a queue.
pub open spec fn family_usable(f: QueueFamilyInfo) -> bool {
    f.supports_graphics && f.supports_present && f.queue_count > 0
}

pub open spec fn has_usable_family(fams: Seq<QueueFamilyInfo>) -> bool {
    exists|i: int| 0 <= i < fams.len() && family_usable(#[trigger] fams[i])
}

/// Index of the first usable family, where there is one.
pub open spec fn first_usable_family(fams: Seq<QueueFamilyInfo>, i: int) -> bool {
    &&& 0 <= i < fams.len()
    &&& family_usable(fams[i])
    &&& forall|j: int| 0 <= j < i ==> !family_usable(#[trigger] fams[j])
}

pub open spec fn device_usable(d: DeviceInfo) -> bool {
    d.supports_swapchain && has_usable_family(d.queue_families@)
}

/// The first queue family that can draw and present, if any.
pub fn pick_queue_family(fams: &Vec<QueueFamilyInfo>) -> (r: Option<usize>)
    ensures
        r is None <==> !has_usable_family(fams@),
        r matches Some(i) ==> first_usable_family(fams@, i as int),
{
    let mut i: usize = 0;
    while i < fams.len()
        invariant
            i <= fams@.len(),
            forall|j: int| 0 <= j < i ==> !family_usable(#[trigger] fams@[j]),
        decreases fams@.len() - i,
    {
        let f = fams[i];
        if f.supports_graphics && f.supports_present && f.queue_count > 0 {
            return Some(i);
        }
        i += 1;
    }
    None
}

/// Chooses the first device that offers the swapchain extension and a queue
/// family that can draw and present, with the first such family on it.
pub fn pick_device(devices: &Vec<DeviceInfo>) -> (r: Result<DeviceChoice, DeviceError>)
    ensures
        r matches Ok(c) ==> {
            &&& c.device < devices@.len()
            &&& device_usable(devices@[c.device as int])
            &&& forall|j: int| 0 <= j < c.device ==> !device_usable(#[trigger] devices@[j])
            &&& first_usable_family(devices@[c.device as int].queue_families@, c.queue_family as int)
        },
        r is Err ==> forall|j: int| 0 <= j < devices@.len() ==> !device_usable(#[trigger] devices@[j]),
        r == Err::<DeviceChoice, DeviceError>(DeviceError::NoDevice) <==> forall|j: int|
            0 <= j < devices@.len() ==> !has_usable_family(#[trigger] devices@[j].queue_families@),
{
    let mut i: usize = 0;
    let mut any_family = false;
    while i < devices.len()
        invariant
            i <= devices@.len(),
            forall|j: int| 0 <= j < i ==> !device_usable(#[trigger] devices@[j]),
            any_family <==> exists|j: int|
                0 <= j < i && has_usable_family(#[trigger] devices@[j].queue_families@),
        decreases devices@.len() - i,
    {
        let d = &devices[i];
        match pick_queue_family(&d.queue_families) {
            Some(f) => {
                if d.supports_swapchain {
                    return Ok(DeviceChoice { device: i, queue_family: f });
                }
                any_family = true;
            },
            None => {},
        }
        i += 1;
    }
    if any_family {
        Err(DeviceError::DeviceCreation)
    } else {
        Err(DeviceError::NoDevice)
    }
}

} // verus!
