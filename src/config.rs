use vstd::prelude::*;
use vstd::string::StringExecFns;
use ash::extensions::{ext, khr};

verus! {

/// Relies on `ash::extensions::ext::DebugUtils::name`, the C string
/// `VK_EXT_debug_utils`.
#[verifier::external_body]
fn debug_utils_extension() -> (r: String)
    ensures
        r@ == "VK_EXT_debug_utils"@,
{
    ext::DebugUtils::name().to_string_lossy().into_owned()
}

/// Relies on `ash::extensions::khr::Swapchain::name`, the C string
/// `VK_KHR_swapchain`.
#[verifier::external_body]
fn swapchain_extension() -> (r: String)
    ensures
        r@ == "VK_KHR_swapchain"@,
{
    khr::Swapchain::name().to_string_lossy().into_owned()
}

/// The instance extensions to request: those the window system needs, in
/// their order, followed by the debug-utils extension.
pub fn instance_extensions(window_required: Vec<String>) -> (r: Vec<String>)
    ensures
        r@.len() == window_required@.len() + 1,
        r@.drop_last() == window_required@,
        r@.last()@ == "VK_EXT_debug_utils"@,
{
    let mut r = window_required;
    r.push(debug_utils_extension());
    proof {
        assert(r@.drop_last() =~= window_required@);
    }
    r
}

/// The device extensions to request: swapchain support only.
pub fn device_extensions() -> (r: Vec<String>)
    ensures
        r@.len() == 1,
        r@[0]@ == "VK_KHR_swapchain"@,
{
    let mut r: Vec<String> = Vec::new();
    r.push(swapchain_extension());
    r
}

/// The validation layers to enable: the Khronos validation layer only.
pub fn validation_layers() -> (r: Vec<String>)
    ensures
        r@.len() == 1,
        r@[0]@ == "VK_LAYER_KHRONOS_validation"@,
{
    let mut r: Vec<String> = Vec::new();
    r.push(String::from_str("VK_LAYER_KHRONOS_validation"));
    r
}

/// What a logical device is created with: one queue of the chosen family,
/// the device extensions, and clip distances in shaders enabled. The
/// queue's relative priority is fixed at one half by whoever submits the
/// request.
pub struct DeviceRequest {
    pub queue_family_index: u32,
    pub queue_count: u32,
    pub extensions: Vec<String>,
    pub shader_clip_distance: bool,
}

impl DeviceRequest {
    /// A request for a single queue of family `queue_family_index`.
    pub fn for_queue(queue_family_index: u32, extensions: Vec<String>) -> (r: DeviceRequest)
        ensures
            r.queue_family_index == queue_family_index,
            r.queue_count == 1,
            r.extensions@ == extensions@,
            r.shader_clip_distance,
    {
        DeviceRequest { queue_family_index, queue_count: 1, extensions, shader_clip_distance: true }
    }
}

} // verus!
