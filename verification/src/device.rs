//! Choosing the physical device and queue family the renderer runs on.
//!
//! The search walks the devices in the order the driver lists them and, on
//! each, the queue families in order. The first family that can do graphics
//! and present to the surface (on a discrete GPU, where one is demanded) wins.

use vstd::prelude::*;

verus! {

/// Queue flag bit of graphics-capable families (`VK_QUEUE_GRAPHICS_BIT`).
pub const QUEUE_GRAPHICS: u32 = 0x1u32;

/// `ash::vk::QueueFlags::contains`: whether every bit of `other` is set in
/// `flags` (`flags & other == other`).
#[verifier::external_body]
fn queue_flags_contain(flags: u32, other: u32) -> (r: bool)
    ensures
        r == (flags & other == other),
{
    ash::vk::QueueFlags::from_raw(flags).contains(ash::vk::QueueFlags::from_raw(other))
}

/// What the search reads of a physical device.
#[derive(Debug)]
pub struct DeviceInfo {
    /// Whether the device is a discrete GPU.
    pub discrete: bool,
    /// The queue flags of its queue families, in order.
    pub queue_families: Vec<u32>,
}

/// Whether a queue family can do graphics.
pub open spec fn is_graphics_family(flags: u32) -> bool {
    flags & QUEUE_GRAPHICS == QUEUE_GRAPHICS
}

/// Whether a queue family with these flags can do graphics.
pub fn supports_graphics(flags: u32) -> (r: bool)
    ensures
        r == is_graphics_family(flags),
{
    queue_flags_contain(flags, QUEUE_GRAPHICS)
}

/// Position `(d, f)` names queue family `f` of device `d`.
pub open spec fn is_position(devices: Seq<DeviceInfo>, p: (usize, usize)) -> bool {
    p.0 < devices.len() && p.1 < devices[p.0 as int].queue_families@.len()
}

/// Position `p` comes strictly before `q` in the search order.
pub open spec fn before(p: (usize, usize), q: (usize, usize)) -> bool {
    p.0 < q.0 || (p.0 == q.0 && p.1 < q.1)
}

/// Position `p` is a graphics-capable queue family.
pub open spec fn is_graphics_at(devices: Seq<DeviceInfo>, p: (usize, usize)) -> bool {
    is_position(devices, p) && is_graphics_family(
        devices[p.0 as int].queue_families@[p.1 as int],
    )
}

/// Whether `support` has one surface-support answer per queue family of each
/// device.
pub open spec fn support_shaped(devices: Seq<DeviceInfo>, support: Seq<Vec<bool>>) -> bool {
    &&& support.len() == devices.len()
    &&& forall|d: int|
        0 <= d < devices.len() ==> (#[trigger] support[d])@.len() == devices[d].queue_families@.len()
}

/// Whether the search accepts family `p`: it can do graphics, it can present
/// to the surface, and its device is a discrete GPU where one is demanded.
pub open spec fn accepted(
    devices: Seq<DeviceInfo>,
    support: Seq<Vec<bool>>,
    require_discrete: bool,
    p: (usize, usize),
) -> bool {
    &&& is_graphics_at(devices, p)
    &&& support[p.0 as int]@[p.1 as int]
    &&& (!require_discrete || devices[p.0 as int].discrete)
}

/// The first accepted queue family, devices in driver order and families in
/// order on each; `None` when no family is accepted.
pub fn find_queue_family(devices: &Vec<DeviceInfo>, support: &Vec<Vec<bool>>, require_discrete: bool) -> (r:
    Option<(usize, usize)>)
    requires
        support_shaped(devices@, support@),
    ensures
        r is None ==> forall|q: (usize, usize)| !#[trigger] accepted(devices@, support@, require_discrete, q),
        r matches Some(p) ==> accepted(devices@, support@, require_discrete, p) && forall|q: (usize, usize)|
            #[trigger] accepted(devices@, support@, require_discrete, q) ==> !before(q, p),
{
    let mut d: usize = 0;
    while d < devices.len()
        invariant
            d <= devices@.len(),
            support_shaped(devices@, support@),
            forall|q: (usize, usize)| #[trigger] accepted(devices@, support@, require_discrete, q) ==> q.0 >= d,
        decreases devices@.len() - d,
    {
        let fams = &devices[d].queue_families;
        let mut f: usize = 0;
        while f < fams.len()
            invariant
                d < devices@.len(),
                fams@ == devices@[d as int].queue_families@,
                f <= fams@.len(),
                support_shaped(devices@, support@),
                forall|q: (usize, usize)|
                    #[trigger] accepted(devices@, support@, require_discrete, q) ==> q.0 > d || (q.0 == d
                        && q.1 >= f),
            decreases fams@.len() - f,
        {
            assert(support@[d as int]@.len() == fams@.len());
            let ok = supports_graphics(fams[f]) && support[d][f] && (!require_discrete
                || devices[d].discrete);
            if ok {
                assert(accepted(devices@, support@, require_discrete, (d, f)));
                return Some((d, f));
            }
            assert(!accepted(devices@, support@, require_discrete, (d, f)));
            f = f + 1;
        }
        d = d + 1;
    }
    None
}

/// The queue family the renderer runs on: the first accepted one, devices in
/// driver order and families in order. Some family must be accepted.
pub fn select_queue_family(devices: &Vec<DeviceInfo>, support: &Vec<Vec<bool>>, require_discrete: bool) -> (r:
    (usize, usize))
    requires
        support_shaped(devices@, support@),
        exists|q: (usize, usize)| #[trigger] accepted(devices@, support@, require_discrete, q),
    ensures
        accepted(devices@, support@, require_discrete, r),
        forall|q: (usize, usize)| #[trigger] accepted(devices@, support@, require_discrete, q) ==> !before(q, r),
{
    find_queue_family(devices, support, require_discrete).unwrap()
}

} // verus!
