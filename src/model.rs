use vstd::prelude::*;
use ash::vk;

verus! {

/// Coarse category of a physical device, as the driver reports it.
#[derive(Clone, Copy, Debug, PartialEq, Eq, Structural)]
pub enum DeviceClass {
    Other,
    IntegratedGpu,
    DiscreteGpu,
    VirtualGpu,
    Cpu,
}

/// Capability bit of a queue family that accepts graphics commands.
pub const GRAPHICS_BIT: u32 = 1;

/// Capability bit of a queue family that accepts compute commands.
pub const COMPUTE_BIT: u32 = 2;

/// Capability bit of a queue family that accepts transfer commands.
pub const TRANSFER_BIT: u32 = 4;

/// One queue family of a device: its raw capability bits and how many
/// queues it offers. Its index is its position in the device's list.
#[derive(Clone, Copy, Debug, PartialEq, Eq, Structural)]
pub struct QueueFamily {
    pub flags: u32,
    pub queue_count: u32,
}

/// Why bootstrapping a session stopped.
#[derive(Clone, Copy, Debug, PartialEq, Eq, Structural)]
pub enum BootstrapError {
    NoBackendAvailable,
    NoDeviceFound,
    NoSuitableDevice,
    NoSuitableQueue,
    QueryFailed,
    ContextCreationFailed,
    SurfaceCreationFailed,
}

/// The family's capability bits include graphics.
pub open spec fn spec_has_graphics(flags: u32) -> bool {
    flags & GRAPHICS_BIT == GRAPHICS_BIT
}

impl QueueFamily {
    pub open spec fn graphics(self) -> bool {
        spec_has_graphics(self.flags)
    }

    /// Whether this family accepts graphics commands.
    pub fn supports_graphics(&self) -> (r: bool)
        ensures
            r == self.graphics(),
    {
        has_graphics(self.flags)
    }
}

/// Relies on `ash::vk::QueueFlags::contains`, which tests
/// `self & other == other` on the raw bits, with `GRAPHICS` being bit `0b1`.
#[verifier::external_body]
fn has_graphics(flags: u32) -> (r: bool)
    ensures
        r == spec_has_graphics(flags),
{
    vk::QueueFlags::from_raw(flags).contains(vk::QueueFlags::GRAPHICS)
}

} // verus!
