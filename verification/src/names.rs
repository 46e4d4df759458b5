//! The layers and extensions the renderer enables on its Vulkan instance and
//! device, and the check that a surface can be created.

use vstd::prelude::*;

verus! {

/// `ash::extensions::ext::DebugUtils::name`: the extension name
/// `VK_EXT_debug_utils`.
#[verifier::external_body]
fn debug_utils_extension_name() -> (r: String)
    ensures
        r@ == "VK_EXT_debug_utils"@,
{
    ash::extensions::ext::DebugUtils::name().to_string_lossy().into_owned()
}

/// `ash::extensions::ext::DebugReport::name`: the extension name
/// `VK_EXT_debug_report`.
#[verifier::external_body]
fn debug_report_extension_name() -> (r: String)
    ensures
        r@ == "VK_EXT_debug_report"@,
{
    ash::extensions::ext::DebugReport::name().to_string_lossy().into_owned()
}

/// `ash::extensions::khr::Surface::name`: the extension name `VK_KHR_surface`.
#[verifier::external_body]
fn surface_extension_name() -> (r: String)
    ensures
        r@ == "VK_KHR_surface"@,
{
    ash::extensions::khr::Surface::name().to_string_lossy().into_owned()
}

/// `ash::extensions::khr::Swapchain::name`: the extension name
/// `VK_KHR_swapchain`.
#[verifier::external_body]
fn swapchain_extension_name() -> (r: String)
    ensures
        r@ == "VK_KHR_swapchain"@,
{
    ash::extensions::khr::Swapchain::name().to_string_lossy().into_owned()
}

/// The layers the instance enables: the Khronos validation layer.
pub fn instance_layers() -> (r: Vec<String>)
    ensures
        r@.len() == 1,
        r@[0]@ == "VK_LAYER_KHRONOS_validation"@,
{
    let mut r: Vec<String> = Vec::new();
    r.push(String::from_str("VK_LAYER_KHRONOS_validation"));
    r
}

/// The extensions the instance enables: the ones the window system needs, in
/// order, then debug utils and debug report.
pub fn instance_extensions(requested: &Vec<String>) -> (r: Vec<String>)
    ensures
        r@.len() == requested@.len() + 2,
        forall|i: int| 0 <= i < requested@.len() ==> #[trigger] r@[i]@ == requested@[i]@,
        r@[requested@.len() as int]@ == "VK_EXT_debug_utils"@,
        r@[requested@.len() + 1int]@ == "VK_EXT_debug_report"@,
{
    let mut r: Vec<String> = Vec::new();
    let mut i: usize = 0;
    while i < requested.len()
        invariant
            i <= requested@.len(),
            r@.len() == i,
            forall|k: int| 0 <= k < i ==> #[trigger] r@[k]@ == requested@[k]@,
        decreases requested@.len() - i,
    {
        r.push(requested[i].clone());
        i = i + 1;
    }
    r.push(debug_utils_extension_name());
    r.push(debug_report_extension_name());
    r
}

/// The extensions the device enables: the swapchain extension.
pub fn device_extensions() -> (r: Vec<String>)
    ensures
        r@.len() == 1,
        r@[0]@ == "VK_KHR_swapchain"@,
{
    let mut r: Vec<String> = Vec::new();
    r.push(swapchain_extension_name());
    r
}

/// Whether the instance was created with the surface extension; without it no
/// surface can be created.
pub fn has_surface_extension(enabled: &Vec<String>) -> (r: bool)
    ensures
        r == exists|i: int| 0 <= i < enabled@.len() && #[trigger] enabled@[i]@ == "VK_KHR_surface"@,
{
    let surface = surface_extension_name();
    let mut i: usize = 0;
    while i < enabled.len()
        invariant
            i <= enabled@.len(),
            surface@ == "VK_KHR_surface"@,
            forall|k: int| 0 <= k < i ==> #[trigger] enabled@[k]@ != "VK_KHR_surface"@,
        decreases enabled@.len() - i,
    {
        if enabled[i] == surface {
            assert(enabled@[i as int]@ == "VK_KHR_surface"@);
            return true;
        }
        i = i + 1;
    }
    false
}

} // verus!
