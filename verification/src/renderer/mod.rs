//! Choosing the Vulkan device and queue family to render with.
use vstd::prelude::*;

verus! {

/// The bit that marks a queue family as able to do graphics.
pub const QUEUE_GRAPHICS: u32 = 1;

/// `ash::vk::QueueFlags::contains` for `ash::vk::QueueFlags::GRAPHICS`:
/// whether the graphics bit, which is bit 0, is set among the raw flags of a
/// queue family.
#[verifier::external_body]
fn supports_graphics(queue_flags: u32) -> (r: bool)
    ensures
        r == (queue_flags & QUEUE_GRAPHICS == QUEUE_GRAPHICS),
{
    ash::vk::QueueFlags::from_raw(queue_flags).contains(ash::vk::QueueFlags::GRAPHICS)
}

/// Whether a queue family with the raw flags `queue_flags` can do graphics.
pub open spec fn spec_supports_graphics(queue_flags: u32) -> bool {
    queue_flags & QUEUE_GRAPHICS == QUEUE_GRAPHICS
}

/// The first of the queue families, given by their raw flags, that can do
/// graphics.
pub fn check_queue_props(qprops: &Vec<u32>) -> (r: Option<usize>)
    ensures
        match r {
            Some(index) => index < qprops@.len() && spec_supports_graphics(qprops@[index as int])
                && forall|j: int| 0 <= j < index ==> !spec_supports_graphics(#[trigger] qprops@[j]),
            None => forall|j: int|
                0 <= j < qprops@.len() ==> !spec_supports_graphics(#[trigger] qprops@[j]),
        },
{
    let mut index: usize = 0;
    while index < qprops.len()
        invariant
            index <= qprops@.len(),
            forall|j: int| 0 <= j < index ==> !spec_supports_graphics(#[trigger] qprops@[j]),
        decreases qprops@.len() - index,
    {
        if supports_graphics(qprops[index]) {
            return Some(index);
        }
        index += 1;
    }
    None
}

/// Whether none of the queue families of a device can do graphics.
pub open spec fn no_graphics(qprops: Seq<u32>) -> bool {
    forall|j: int| 0 <= j < qprops.len() ==> !spec_supports_graphics(#[trigger] qprops[j])
}

/// The first device that has a queue family able to do graphics, and the
/// first such family of it. Each device is given by the raw flags of its
/// queue families.
pub fn select_pdevice(pdevices: &Vec<Vec<u32>>) -> (r: Option<(usize, usize)>)
    ensures
        match r {
            Some((device, family)) => device < pdevices@.len() && family < pdevices@[device as int]@.len()
                && spec_supports_graphics(pdevices@[device as int]@[family as int])
                && (forall|j: int|
                0 <= j < family ==> !spec_supports_graphics(
                    #[trigger] pdevices@[device as int]@[j],
                )) && forall|d: int| 0 <= d < device ==> no_graphics(#[trigger] pdevices@[d]@),
            None => forall|d: int| 0 <= d < pdevices@.len() ==> no_graphics(#[trigger] pdevices@[d]@),
        },
{
    let mut device: usize = 0;
    while device < pdevices.len()
        invariant
            device <= pdevices@.len(),
            forall|d: int| 0 <= d < device ==> no_graphics(#[trigger] pdevices@[d]@),
        decreases pdevices@.len() - device,
    {
        if let Some(family) = check_queue_props(&pdevices[device]) {
            return Some((device, family));
        }
        device += 1;
    }
    None
}

} // verus!
