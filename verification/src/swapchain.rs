//! Swapchain setup and frame acquisition: the parameters a swapchain is
//! created with, which earlier swapchain of the same surface it replaces, and
//! which swapchain image a frame renders to.

use vstd::prelude::*;

verus! {

/// Surface transform bit `VK_SURFACE_TRANSFORM_IDENTITY_BIT_KHR`.
pub const TRANSFORM_IDENTITY: u32 = 0x1u32;

/// Present mode `VK_PRESENT_MODE_MAILBOX_KHR`.
pub const PRESENT_MODE_MAILBOX: i32 = 1i32;

/// Present mode `VK_PRESENT_MODE_FIFO_KHR`, which every driver supports.
pub const PRESENT_MODE_FIFO: i32 = 2i32;

/// `ash::vk::SurfaceTransformFlagsKHR::contains`: whether every bit of `other`
/// is set in `flags` (`flags & other == other`).
#[verifier::external_body]
fn surface_transforms_contain(flags: u32, other: u32) -> (r: bool)
    ensures
        r == (flags & other == other),
{
    ash::vk::SurfaceTransformFlagsKHR::from_raw(flags).contains(
        ash::vk::SurfaceTransformFlagsKHR::from_raw(other),
    )
}

/// The transform the swapchain presents with: identity where the surface
/// supports it, else the surface's current transform.
pub fn pre_transform(supported_transforms: u32, current_transform: u32) -> (r: u32)
    ensures
        r == if supported_transforms & TRANSFORM_IDENTITY == TRANSFORM_IDENTITY {
            TRANSFORM_IDENTITY
        } else {
            current_transform
        },
{
    if surface_transforms_contain(supported_transforms, TRANSFORM_IDENTITY) {
        TRANSFORM_IDENTITY
    } else {
        current_transform
    }
}

/// The number of images asked for: one more than the surface's minimum, but
/// no more than its maximum when it has one (a maximum of 0 means none).
pub open spec fn image_count_spec(min_image_count: u32, max_image_count: u32) -> u32 {
    if max_image_count > 0 && min_image_count + 1 > max_image_count {
        max_image_count
    } else {
        (min_image_count + 1) as u32
    }
}

/// Computes the number of swapchain images to ask for.
pub fn desired_image_count(min_image_count: u32, max_image_count: u32) -> (r: u32)
    requires
        min_image_count < u32::MAX,
    ensures
        r == image_count_spec(min_image_count, max_image_count),
{
    let mut desired = min_image_count + 1;
    if max_image_count > 0 && desired > max_image_count {
        desired = max_image_count;
    }
    desired
}

/// The present mode: mailbox if the surface offers it, else FIFO.
pub fn choose_present_mode(present_modes: &Vec<i32>) -> (r: i32)
    ensures
        r == if present_modes@.contains(PRESENT_MODE_MAILBOX) {
            PRESENT_MODE_MAILBOX
        } else {
            PRESENT_MODE_FIFO
        },
{
    let mut i: usize = 0;
    while i < present_modes.len()
        invariant
            i <= present_modes@.len(),
            forall|k: int| 0 <= k < i ==> present_modes@[k] != PRESENT_MODE_MAILBOX,
        decreases present_modes@.len() - i,
    {
        if present_modes[i] == PRESENT_MODE_MAILBOX {
            assert(present_modes@[i as int] == PRESENT_MODE_MAILBOX);
            return PRESENT_MODE_MAILBOX;
        }
        i = i + 1;
    }
    PRESENT_MODE_FIFO
}

/// Identity of a surface as the swapchain table keys it: its handle and the
/// size it was created with.
#[derive(Clone, Copy, Debug, PartialEq, Eq, Structural)]
pub struct SurfaceKey {
    pub handle: u64,
    pub width: u32,
    pub height: u32,
}

/// The swapchain recorded for `k` in a list of records: the last record of `k`.
pub open spec fn record_lookup(records: Seq<(SurfaceKey, u64)>, k: SurfaceKey) -> Option<u64>
    decreases records.len(),
{
    if records.len() == 0 {
        None
    } else if records.last().0 == k {
        Some(records.last().1)
    } else {
        record_lookup(records.drop_last(), k)
    }
}

/// The records not about `k`, in order.
pub open spec fn records_without(records: Seq<(SurfaceKey, u64)>, k: SurfaceKey) -> Seq<
    (SurfaceKey, u64),
>
    decreases records.len(),
{
    if records.len() == 0 {
        Seq::empty()
    } else if records.last().0 == k {
        records_without(records.drop_last(), k)
    } else {
        records_without(records.drop_last(), k).push(records.last())
    }
}

/// Dropping the records of `k` forgets `k` and keeps every other surface.
proof fn lemma_records_without(records: Seq<(SurfaceKey, u64)>, k: SurfaceKey, other: SurfaceKey)
    ensures
        record_lookup(records_without(records, k), other) == if other == k {
            None::<u64>
        } else {
            record_lookup(records, other)
        },
    decreases records.len(),
{
    if records.len() > 0 {
        lemma_records_without(records.drop_last(), k, other);
        let w = records_without(records.drop_last(), k);
        assert(w.push(records.last()).drop_last() =~= w);
    }
}

/// The latest swapchain created for each surface.
pub struct SwapchainTable {
    entries: Vec<(SurfaceKey, u64)>,
}

impl View for SwapchainTable {
    type V = Map<SurfaceKey, u64>;

    /// The swapchain handle recorded for each surface.
    closed spec fn view(&self) -> Map<SurfaceKey, u64> {
        Map::new(
            |k: SurfaceKey| record_lookup(self.entries@, k) is Some,
            |k: SurfaceKey| record_lookup(self.entries@, k)->0,
        )
    }
}

impl SwapchainTable {

    /// A table with no swapchain.
    pub fn new() -> (r: Self)
        ensures
            r.view() == Map::<SurfaceKey, u64>::empty(),
    {
        let r = SwapchainTable { entries: Vec::new() };
        assert(r.view() =~= Map::<SurfaceKey, u64>::empty());
        r
    }

    /// The swapchain recorded for a surface.
    pub fn get(&self, key: SurfaceKey) -> (r: Option<u64>)
        ensures
            r == if self.view().contains_key(key) { Some(self.view()[key]) } else { None::<u64> },
    {
        let mut i: usize = self.entries.len();
        assert(self.entries@.take(i as int) =~= self.entries@);
        while i > 0
            invariant
                i <= self.entries@.len(),
                record_lookup(self.entries@, key) == record_lookup(self.entries@.take(i as int), key),
            decreases i,
        {
            assert(self.entries@.take(i as int).drop_last() =~= self.entries@.take(i - 1));
            assert(self.entries@.take(i as int).last() == self.entries@[i - 1]);
            if self.entries[i - 1].0 == key {
                return Some(self.entries[i - 1].1);
            }
            i = i - 1;
        }
        None
    }

    /// Records `swapchain` as the surface's latest swapchain.
    pub fn insert(&mut self, key: SurfaceKey, swapchain: u64)
        ensures
            final(self).view() == old(self).view().insert(key, swapchain),
    {
        let ghost old_entries = self.entries@;
        let mut kept: Vec<(SurfaceKey, u64)> = Vec::new();
        let mut i: usize = 0;
        assert(old_entries.take(0) =~= Seq::<(SurfaceKey, u64)>::empty());
        while i < self.entries.len()
            invariant
                i <= self.entries@.len(),
                self.entries@ == old_entries,
                kept@ == records_without(old_entries.take(i as int), key),
            decreases self.entries@.len() - i,
        {
            let e = self.entries[i];
            assert(old_entries.take(i + 1).drop_last() =~= old_entries.take(i as int));
            assert(old_entries.take(i + 1).last() == e);
            if e.0 != key {
                kept.push(e);
            }
            i = i + 1;
        }
        assert(old_entries.take(i as int) =~= old_entries);
        kept.push((key, swapchain));
        self.entries = kept;
        assert forall|k: SurfaceKey| #[trigger] record_lookup(self.entries@, k) == if k == key {
            Some(swapchain)
        } else {
            record_lookup(old_entries, k)
        } by {
            lemma_records_without(old_entries, key, k);
            assert(self.entries@.drop_last() == records_without(old_entries, key));
        }
        assert(self.view() =~= old(self).view().insert(key, swapchain));
    }
}

/// What a surface offers, as the swapchain setup reads it.
#[derive(Debug)]
pub struct SurfaceInfo {
    pub key: SurfaceKey,
    /// Supported (format, colour space) pairs, as the driver lists them.
    pub formats: Vec<(i32, i32)>,
    pub min_image_count: u32,
    pub max_image_count: u32,
    pub current_extent: (u32, u32),
    pub supported_transforms: u32,
    pub current_transform: u32,
    pub present_modes: Vec<i32>,
}

/// The parameters a swapchain is created with.
#[derive(Clone, Copy, Debug, PartialEq, Eq, Structural)]
pub struct SwapchainParams {
    pub format: i32,
    pub color_space: i32,
    pub min_image_count: u32,
    pub extent_width: u32,
    pub extent_height: u32,
    pub pre_transform: u32,
    pub present_mode: i32,
    /// The swapchain it replaces; 0 (the null handle) for the first one.
    pub old_swapchain: u64,
}

/// The parameters for a new swapchain of a surface: its first format, one image
/// more than its minimum (capped at its maximum), its current extent, identity
/// transform if offered, mailbox presentation if offered, replacing the
/// surface's last swapchain.
pub open spec fn params_spec(s: SurfaceInfo, table: Map<SurfaceKey, u64>) -> SwapchainParams {
    SwapchainParams {
        format: s.formats@[0].0,
        color_space: s.formats@[0].1,
        min_image_count: image_count_spec(s.min_image_count, s.max_image_count),
        extent_width: s.current_extent.0,
        extent_height: s.current_extent.1,
        pre_transform: if s.supported_transforms & TRANSFORM_IDENTITY == TRANSFORM_IDENTITY {
            TRANSFORM_IDENTITY
        } else {
            s.current_transform
        },
        present_mode: if s.present_modes@.contains(PRESENT_MODE_MAILBOX) {
            PRESENT_MODE_MAILBOX
        } else {
            PRESENT_MODE_FIFO
        },
        old_swapchain: if table.contains_key(s.key) { table[s.key] } else { 0 },
    }
}

/// Computes the parameters of a new swapchain for a surface.
pub fn swapchain_params(surface: &SurfaceInfo, table: &SwapchainTable) -> (r: SwapchainParams)
    requires
        surface.formats@.len() > 0,
        surface.min_image_count < u32::MAX,
    ensures
        r == params_spec(*surface, table.view()),
{
    let (format, color_space) = surface.formats[0];
    let old_swapchain = match table.get(surface.key) {
        Some(s) => s,
        None => 0,
    };
    SwapchainParams {
        format,
        color_space,
        min_image_count: desired_image_count(surface.min_image_count, surface.max_image_count),
        extent_width: surface.current_extent.0,
        extent_height: surface.current_extent.1,
        pre_transform: pre_transform(surface.supported_transforms, surface.current_transform),
        present_mode: choose_present_mode(&surface.present_modes),
        old_swapchain,
    }
}

/// A new swapchain of a surface replaces the one recorded before: once it is
/// recorded, the next swapchain of the surface is created with it as the one
/// to replace.
pub proof fn lemma_next_swapchain_replaces(s: SurfaceInfo, table: Map<SurfaceKey, u64>, created: u64)
    ensures
        params_spec(s, table.insert(s.key, created)).old_swapchain == created,
{
}

/// Which image a frame renders to: a new one is acquired only while the
/// current one is marked used.
#[derive(Clone, Copy, Debug, PartialEq, Eq, Structural)]
pub struct FrameState {
    pub current_image_used: bool,
    pub current_image_index: u32,
}

/// The state of a freshly created swapchain: no image acquired yet.
pub fn initial_frame_state() -> (r: FrameState)
    ensures
        r == (FrameState { current_image_used: true, current_image_index: 0 }),
{
    FrameState { current_image_used: true, current_image_index: 0 }
}

/// Whether the next frame needs a new image from the swapchain.
pub fn needs_acquire(state: &FrameState) -> (r: bool)
    ensures
        r == state.current_image_used,
{
    state.current_image_used
}

/// Records an image the swapchain handed out: it becomes the current image
/// and is no longer marked used. Returns the image view index to render to.
pub fn image_acquired(state: &mut FrameState, image_index: u32) -> (r: usize)
    ensures
        *final(state) == (FrameState { current_image_used: false, current_image_index: image_index }),
        r == image_index as usize,
{
    state.current_image_index = image_index;
    state.current_image_used = false;
    image_index as usize
}

/// The image view index of the current image.
pub fn current_view_index(state: &FrameState) -> (r: usize)
    ensures
        r == state.current_image_index as usize,
{
    state.current_image_index as usize
}

/// One frame: the image it renders to and the state after it, given the
/// image the swapchain hands out if asked. A new image is acquired only while
/// the current one is marked used.
pub open spec fn frame_step(state: FrameState, offered: u32) -> (FrameState, u32) {
    if state.current_image_used {
        (FrameState { current_image_used: false, current_image_index: offered }, offered)
    } else {
        (state, state.current_image_index)
    }
}

/// The images a run of frames renders to, given the image the swapchain
/// hands out at each frame if asked.
pub open spec fn rendered_images(state: FrameState, offered: Seq<u32>) -> Seq<u32>
    decreases offered.len(),
{
    if offered.len() == 0 {
        Seq::empty()
    } else {
        let (next, image) = frame_step(state, offered[0]);
        seq![image] + rendered_images(next, offered.drop_first())
    }
}

proof fn lemma_unused_image_sticks(state: FrameState, offered: Seq<u32>)
    requires
        !state.current_image_used,
    ensures
        rendered_images(state, offered).len() == offered.len(),
        forall|k: int|
            0 <= k < offered.len() ==> #[trigger] rendered_images(state, offered)[k]
                == state.current_image_index,
    decreases offered.len(),
{
    if offered.len() > 0 {
        lemma_unused_image_sticks(state, offered.drop_first());
        let rest = rendered_images(state, offered.drop_first());
        assert forall|k: int| 0 <= k < offered.len() implies #[trigger] rendered_images(state, offered)[k]
            == state.current_image_index by {
            if k > 0 {
                assert(rendered_images(state, offered)[k] == rest[k - 1]);
            }
        }
    }
}

/// Nothing marks an acquired image used again: from a fresh swapchain, the
/// first frame acquires an image and every later frame renders to that same
/// image without acquiring another.
pub proof fn lemma_acquired_image_sticks(offered: Seq<u32>)
    ensures
        rendered_images(FrameState { current_image_used: true, current_image_index: 0 }, offered).len()
            == offered.len(),
        forall|k: int|
            0 <= k < offered.len() ==> #[trigger] rendered_images(
                FrameState { current_image_used: true, current_image_index: 0 },
                offered,
            )[k] == offered[0],
{
    if offered.len() > 0 {
        let start = FrameState { current_image_used: true, current_image_index: 0 };
        let next = FrameState { current_image_used: false, current_image_index: offered[0] };
        lemma_unused_image_sticks(next, offered.drop_first());
        let rest = rendered_images(next, offered.drop_first());
        assert forall|k: int| 0 <= k < offered.len() implies #[trigger] rendered_images(start, offered)[k]
            == offered[0] by {
            if k > 0 {
                assert(rendered_images(start, offered)[k] == rest[k - 1]);
            }
        }
    }
}

/// A requested swapchain size.
pub struct SwapchainDescription {
    image_count: u32,
}

impl SwapchainDescription {
    /// The number of images asked for.
    pub closed spec fn image_count_spec(&self) -> u32 {
        self.image_count
    }

    /// A description asking for `image_count` images.
    pub fn new(image_count: u32) -> (r: Self)
        ensures
            r.image_count_spec() == image_count,
    {
        SwapchainDescription { image_count }
    }

    /// The number of images asked for.
    pub fn image_count(&self) -> (r: u32)
        ensures
            r == self.image_count_spec(),
    {
        self.image_count
    }
}

/// A swapchain is sized by what the driver reports now: its extent is the
/// surface's current extent, and two surfaces that differ only in the size
/// their key records get the same extent, format, image count, transform and
/// present mode.
pub proof fn lemma_extent_is_current_extent(s: SurfaceInfo, t: SurfaceInfo, table: Map<SurfaceKey, u64>)
    requires
        s.formats@ == t.formats@,
        s.min_image_count == t.min_image_count,
        s.max_image_count == t.max_image_count,
        s.current_extent == t.current_extent,
        s.supported_transforms == t.supported_transforms,
        s.current_transform == t.current_transform,
        s.present_modes@ == t.present_modes@,
        s.key.handle == t.key.handle,
    ensures
        params_spec(s, table).extent_width == s.current_extent.0,
        params_spec(s, table).extent_height == s.current_extent.1,
        params_spec(s, table).extent_width == params_spec(t, table).extent_width,
        params_spec(s, table).extent_height == params_spec(t, table).extent_height,
        params_spec(s, table).format == params_spec(t, table).format,
        params_spec(s, table).color_space == params_spec(t, table).color_space,
        params_spec(s, table).min_image_count == params_spec(t, table).min_image_count,
        params_spec(s, table).pre_transform == params_spec(t, table).pre_transform,
        params_spec(s, table).present_mode == params_spec(t, table).present_mode,
{
}

} // verus!
