//! Settings of the surface, the swapchain and the device queue, chosen from what the
//! device reports.
use vstd::prelude::*;

verus! {

/// How many frames may be in flight at once.
pub const MAX_FRAME_LATENCY: usize = 1;

/// Queue capability bit: the queue family supports graphics operations.
pub const QUEUE_GRAPHICS_BIT: u32 = 1;

/// Surface transform bit: the image content is presented without a transform.
pub const SURFACE_TRANSFORM_IDENTITY: u32 = 1;

/// Present mode: the presentation engine keeps only the newest image ready.
pub const PRESENT_MODE_MAILBOX: i32 = 1;

/// Present mode: images are presented in order, one per vertical blank; every
/// device supports it.
pub const PRESENT_MODE_FIFO: i32 = 2;

/// A two-dimensional size in pixels.
#[derive(Clone, Copy, Debug, PartialEq, Eq)]
pub struct Extent2D {
    pub width: u32,
    pub height: u32,
}

/// What a surface allows, as the device reports it.
#[derive(Clone, Copy, Debug, PartialEq, Eq)]
pub struct SurfaceCapabilities {
    pub min_image_count: u32,
    /// Zero when there is no upper limit.
    pub max_image_count: u32,
    /// A width of `u32::MAX` means the size is set by the swapchain.
    pub current_extent: Extent2D,
    pub supported_transforms: u32,
    pub current_transform: u32,
}

/// What the logic reads of one queue family of a physical device.
#[derive(Clone, Copy, Debug, PartialEq, Eq)]
pub struct QueueFamily {
    /// The capability bits of the family.
    pub queue_flags: u32,
    /// The family can present to the window's surface. Only asked for
    /// families that support graphics; `false` for the others.
    pub supports_surface: bool,
}

/// One image more than the minimum, lowered to the maximum where there is one.
pub open spec fn spec_desired_image_count(caps: SurfaceCapabilities) -> u32 {
    if caps.max_image_count > 0 && caps.min_image_count + 1 > caps.max_image_count {
        caps.max_image_count
    } else {
        (caps.min_image_count + 1) as u32
    }
}

/// The number of swapchain images to ask for.
pub fn desired_image_count(caps: &SurfaceCapabilities) -> (r: u32)
    requires
        caps.min_image_count < u32::MAX,
    ensures
        r == spec_desired_image_count(*caps),
        caps.max_image_count == 0 || caps.min_image_count + 1 <= caps.max_image_count ==> r
            == caps.min_image_count + 1,
        caps.max_image_count > 0 && caps.min_image_count + 1 > caps.max_image_count ==> r
            == caps.max_image_count,
{
    let mut desired = caps.min_image_count + 1;
    if caps.max_image_count > 0 && desired > caps.max_image_count {
        desired = caps.max_image_count;
    }
    desired
}

/// The surface's own size, or the window's size where the surface leaves it to the
/// swapchain.
pub open spec fn spec_surface_resolution(
    caps: SurfaceCapabilities,
    window_width: u32,
    window_height: u32,
) -> Extent2D {
    if caps.current_extent.width == u32::MAX {
        Extent2D { width: window_width, height: window_height }
    } else {
        caps.current_extent
    }
}

/// The size of the swapchain images.
pub fn surface_resolution(caps: &SurfaceCapabilities, window_width: u32, window_height: u32) -> (r:
    Extent2D)
    ensures
        r == spec_surface_resolution(*caps, window_width, window_height),
        caps.current_extent.width != u32::MAX ==> r == caps.current_extent,
        caps.current_extent.width == u32::MAX ==> r.width == window_width && r.height
            == window_height,
{
    if caps.current_extent.width == u32::MAX {
        Extent2D { width: window_width, height: window_height }
    } else {
        caps.current_extent
    }
}

/// The identity transform where the surface supports it, else the current one.
pub open spec fn spec_pre_transform(caps: SurfaceCapabilities) -> u32 {
    if caps.supported_transforms & SURFACE_TRANSFORM_IDENTITY == SURFACE_TRANSFORM_IDENTITY {
        SURFACE_TRANSFORM_IDENTITY
    } else {
        caps.current_transform
    }
}

/// The transform applied to images before presentation.
pub fn pre_transform(caps: &SurfaceCapabilities) -> (r: u32)
    ensures
        r == spec_pre_transform(*caps),
        caps.supported_transforms & SURFACE_TRANSFORM_IDENTITY != 0 ==> r
            == SURFACE_TRANSFORM_IDENTITY,
        caps.supported_transforms & SURFACE_TRANSFORM_IDENTITY == 0 ==> r
            == caps.current_transform,
{
    let t = caps.supported_transforms;
    assert(t & 1u32 != 0 ==> t & 1u32 == 1u32) by (bit_vector);
    if caps.supported_transforms & SURFACE_TRANSFORM_IDENTITY == SURFACE_TRANSFORM_IDENTITY {
        SURFACE_TRANSFORM_IDENTITY
    } else {
        caps.current_transform
    }
}

/// Mailbox where the surface offers it, else FIFO.
pub fn choose_present_mode(present_modes: &Vec<i32>) -> (r: i32)
    ensures
        r == (if present_modes@.contains(PRESENT_MODE_MAILBOX) {
            PRESENT_MODE_MAILBOX
        } else {
            PRESENT_MODE_FIFO
        }),
{
    let mut i: usize = 0;
    while i < present_modes.len()
        invariant
            i <= present_modes@.len(),
            forall|j: int| 0 <= j < i ==> present_modes@[j] != PRESENT_MODE_MAILBOX,
        decreases present_modes@.len() - i,
    {
        if present_modes[i] == PRESENT_MODE_MAILBOX {
            return PRESENT_MODE_MAILBOX;
        }
        i += 1;
    }
    PRESENT_MODE_FIFO
}

/// The family supports graphics and can present to the surface.
pub open spec fn family_usable(family: QueueFamily) -> bool {
    &&& family.queue_flags & QUEUE_GRAPHICS_BIT == QUEUE_GRAPHICS_BIT
    &&& family.supports_surface
}

/// Device `d` has a usable family.
pub open spec fn device_usable(devices: Seq<Vec<QueueFamily>>, d: int) -> bool {
    exists|f: int| 0 <= f < devices[d]@.len() && #[trigger] family_usable(devices[d]@[f])
}

/// Finds the first physical device, in the order given, with a queue family that
/// supports graphics and presentation, and the first such family on it. `devices[d]`
/// lists the queue families of device `d`.
pub fn select_queue_family(devices: &Vec<Vec<QueueFamily>>) -> (r: Option<(usize, u32)>)
    requires
        forall|d: int| 0 <= d < devices@.len() ==> #[trigger] devices@[d]@.len() <= u32::MAX,
    ensures
        match r {
            Some((d, f)) => {
                &&& d < devices@.len()
                &&& f < devices@[d as int]@.len()
                &&& family_usable(devices@[d as int]@[f as int])
                &&& forall|g: int| 0 <= g < f ==> !family_usable(#[trigger] devices@[d as int]@[g])
                &&& forall|e: int| 0 <= e < d ==> !#[trigger] device_usable(devices@, e)
            },
            None => forall|e: int| 0 <= e < devices@.len() ==> !#[trigger] device_usable(devices@, e),
        },
{
    let mut d: usize = 0;
    while d < devices.len()
        invariant
            d <= devices@.len(),
            forall|e: int| 0 <= e < devices@.len() ==> #[trigger] devices@[e]@.len() <= u32::MAX,
            forall|e: int| 0 <= e < d ==> !#[trigger] device_usable(devices@, e),
        decreases devices@.len() - d,
    {
        let families = &devices[d];
        let mut f: usize = 0;
        while f < families.len()
            invariant
                f <= families@.len(),
                d < devices@.len(),
                families@ == devices@[d as int]@,
                families@.len() <= u32::MAX,
                forall|e: int| 0 <= e < d ==> !#[trigger] device_usable(devices@, e),
                forall|g: int| 0 <= g < f ==> !family_usable(#[trigger] families@[g]),
            decreases families@.len() - f,
        {
            if families[f].queue_flags & QUEUE_GRAPHICS_BIT == QUEUE_GRAPHICS_BIT
                && families[f].supports_surface {
                return Some((d, f as u32));
            }
            f += 1;
        }
        assert(!device_usable(devices@, d as int));
        d += 1;
    }
    None
}

/// Position `(d, f)` comes at or after `(device, family)`, devices in order and the
/// families of a device in order.
pub open spec fn at_or_after(d: int, f: int, device: int, family: int) -> bool {
    d > device || (d == device && f >= family)
}

/// Queue family `f` of device `d` exists and supports graphics.
pub open spec fn graphics_family(queue_flags: Seq<Vec<u32>>, d: int, f: int) -> bool {
    &&& 0 <= d < queue_flags.len()
    &&& 0 <= f < queue_flags[d]@.len()
    &&& queue_flags[d]@[f] & QUEUE_GRAPHICS_BIT == QUEUE_GRAPHICS_BIT
}

/// `r` is the first queue family at or after `(device, family)` that supports graphics,
/// or `None` where there is none.
pub open spec fn next_graphics(queue_flags: Seq<Vec<u32>>, device: int, family: int, r: Option<(usize, usize)>) -> bool {
    match r {
        Some((d, f)) => {
            &&& graphics_family(queue_flags, d as int, f as int)
            &&& at_or_after(d as int, f as int, device, family)
            &&& forall|d2: int, f2: int|
                #![trigger graphics_family(queue_flags, d2, f2)]
                at_or_after(d2, f2, device, family) && !at_or_after(d2, f2, d as int, f as int)
                    ==> !graphics_family(queue_flags, d2, f2)
        },
        None => forall|d2: int, f2: int|
            #![trigger graphics_family(queue_flags, d2, f2)]
            at_or_after(d2, f2, device, family) ==> !graphics_family(queue_flags, d2, f2),
    }
}

/// The next queue family, at or after `(device, family)`, that supports graphics;
/// `queue_flags[d]` lists the capability bits of the families of device `d`. The
/// search for a family that can also present goes from one such family to the next,
/// asking about presentation only there, and stops at the first that can.
pub fn next_graphics_family(queue_flags: &Vec<Vec<u32>>, device: usize, family: usize) -> (r:
    Option<(usize, usize)>)
    ensures
        next_graphics(queue_flags@, device as int, family as int, r),
{
    let mut d: usize = device;
    while d < queue_flags.len()
        invariant
            device <= d,
            forall|d2: int, f2: int|
                #![trigger graphics_family(queue_flags@, d2, f2)]
                at_or_after(d2, f2, device as int, family as int) && d2 < d ==> !graphics_family(
                    queue_flags@,
                    d2,
                    f2,
                ),
        decreases queue_flags@.len() - d,
    {
        let families = &queue_flags[d];
        let mut f: usize = if d == device {
            family
        } else {
            0
        };
        while f < families.len()
            invariant
                device <= d < queue_flags@.len(),
                families@ == queue_flags@[d as int]@,
                d == device ==> f >= family,
                forall|d2: int, f2: int|
                    #![trigger graphics_family(queue_flags@, d2, f2)]
                    at_or_after(d2, f2, device as int, family as int) && (d2 < d || (d2 == d && f2
                        < f)) ==> !graphics_family(queue_flags@, d2, f2),
            decreases families@.len() - f,
        {
            if families[f] & QUEUE_GRAPHICS_BIT == QUEUE_GRAPHICS_BIT {
                return Some((d, f));
            }
            f += 1;
        }
        d += 1;
    }
    None
}

/// Where the search for a queue family that does graphics and can present stands.
#[derive(Clone, Copy, Debug, PartialEq, Eq)]
pub enum QueueSearch {
    /// Ask whether family `f` of device `d` can present to the surface.
    Ask(usize, usize),
    /// Family `f` of device `d` does graphics and can present: the search is over.
    Found(usize, usize),
    /// No family is left to ask: no device is suitable.
    Exhausted,
}

/// After a search from `(device, family)`, `r` asks about the next family that supports
/// graphics, or says that none is left.
pub open spec fn search_goes_on(queue_flags: Seq<Vec<u32>>, device: int, family: int, r: QueueSearch) -> bool {
    match r {
        QueueSearch::Ask(d, f) => next_graphics(queue_flags, device, family, Some((d, f))),
        QueueSearch::Exhausted => next_graphics(queue_flags, device, family, None),
        QueueSearch::Found(_, _) => false,
    }
}

/// One step of the search for the queue family to use: devices in order, the families
/// of a device in order, and of those only the ones that support graphics are asked
/// whether they can present. `answer` is `None` at the start, and afterwards the family
/// last asked about with whether it can present; the first that can is the one found.
pub fn queue_search_step(queue_flags: &Vec<Vec<u32>>, answer: Option<(usize, usize, bool)>) -> (r:
    QueueSearch)
    requires
        answer matches Some((d, f, _)) ==> graphics_family(queue_flags@, d as int, f as int),
    ensures
        match answer {
            None => search_goes_on(queue_flags@, 0, 0, r),
            Some((d, f, true)) => r == QueueSearch::Found(d, f),
            Some((d, f, false)) => search_goes_on(queue_flags@, d as int, f + 1, r),
        },
{
    let start = match answer {
        None => (0, 0),
        Some((d, f, true)) => return QueueSearch::Found(d, f),
        Some((d, f, false)) => {
            let families = queue_flags[d].len();
            assert(f < families);
            (d, f + 1)
        },
    };
    match next_graphics_family(queue_flags, start.0, start.1) {
        Some((d, f)) => QueueSearch::Ask(d, f),
        None => QueueSearch::Exhausted,
    }
}

/// The swapchain gets one image more than the surface's minimum, unless the surface
/// sets a maximum below that, and then the maximum.
pub proof fn lemma_image_count_one_above_minimum(caps: SurfaceCapabilities)
    requires
        caps.min_image_count < u32::MAX,
    ensures
        caps.max_image_count == 0 || caps.min_image_count + 1 <= caps.max_image_count
            ==> spec_desired_image_count(caps) == caps.min_image_count + 1,
        caps.max_image_count > 0 && caps.min_image_count + 1 > caps.max_image_count
            ==> spec_desired_image_count(caps) == caps.max_image_count,
        caps.max_image_count > 0 ==> spec_desired_image_count(caps) <= caps.max_image_count,
{
}

/// The swapchain images have the surface's current size; only where the surface leaves
/// the size open (a width of `u32::MAX`) do they take the window's size.
pub proof fn lemma_extent_follows_surface(caps: SurfaceCapabilities, window_width: u32, window_height: u32)
    ensures
        caps.current_extent.width != u32::MAX ==> spec_surface_resolution(caps, window_width, window_height)
            == caps.current_extent,
        caps.current_extent.width == u32::MAX ==> spec_surface_resolution(caps, window_width, window_height)
            == (Extent2D { width: window_width, height: window_height }),
{
}

/// Images are presented untransformed wherever the surface supports the identity
/// transform; otherwise the surface's current transform is kept.
pub proof fn lemma_identity_transform_preferred(caps: SurfaceCapabilities)
    ensures
        caps.supported_transforms & SURFACE_TRANSFORM_IDENTITY != 0 ==> spec_pre_transform(caps)
            == SURFACE_TRANSFORM_IDENTITY,
        caps.supported_transforms & SURFACE_TRANSFORM_IDENTITY == 0 ==> spec_pre_transform(caps)
            == caps.current_transform,
{
    let t = caps.supported_transforms;
    assert(t & 1u32 != 0 ==> t & 1u32 == 1u32) by (bit_vector);
}

/// The number of command buffers allocated at setup: one for setup, one for loading
/// the application's data, and one per frame in flight.
pub fn command_buffer_count() -> (r: u32)
    ensures
        r == 2 + MAX_FRAME_LATENCY,
{
    2 + MAX_FRAME_LATENCY as u32
}

/// Parts the allocated command buffers into the setup buffer, the application setup
/// buffer, and the per-frame draw buffers.
pub fn split_command_buffers<T: Copy>(buffers: &Vec<T>) -> (r: (T, T, Vec<T>))
    requires
        buffers@.len() >= 2 + MAX_FRAME_LATENCY,
    ensures
        r.0 == buffers@[0],
        r.1 == buffers@[1],
        r.2@ == buffers@.subrange(2, 2 + MAX_FRAME_LATENCY),
{
    let setup = buffers[0];
    let app_setup = buffers[1];
    let mut draw: Vec<T> = Vec::new();
    let mut i: usize = 2;
    while i < 2 + MAX_FRAME_LATENCY
        invariant
            2 <= i <= 2 + MAX_FRAME_LATENCY,
            buffers@.len() >= 2 + MAX_FRAME_LATENCY,
            draw@ == buffers@.subrange(2, i as int),
        decreases 2 + MAX_FRAME_LATENCY - i,
    {
        draw.push(buffers[i]);
        i += 1;
    }
    (setup, app_setup, draw)
}

} // verus!
