//! Frame pacing and teardown of the renderer.
use vstd::prelude::*;

use super::constants::VALIDATION_ENABLED;

verus! {

/// How many frames may be in flight on the GPU at once.
pub const MAX_FRAMES_IN_FLIGHT: usize = 2;

/// `VK_PIPELINE_STAGE_COLOR_ATTACHMENT_OUTPUT_BIT`.
pub const PIPELINE_STAGE_COLOR_ATTACHMENT_OUTPUT: u32 = 0x400;

/// The synchronisation objects of each frame slot, and the slot being drawn.
pub struct FrameSync {
    pub image_available_semaphores: Vec<u64>,
    pub render_finished_semaphores: Vec<u64>,
    pub in_flight_fences: Vec<u64>,
    pub current_frame: usize,
}

/// What a frame waits on before it starts: the fence of its slot, and the
/// semaphore that the image acquisition signals.
#[derive(Clone, Copy, Debug, PartialEq, Eq, Structural)]
pub struct FrameStart {
    pub wait_fence: u64,
    pub acquire_semaphore: u64,
}

/// How a frame is submitted and presented: the queue submission waits on
/// `wait_semaphore` at `wait_stage`, runs `command_buffer`, signals
/// `signal_semaphore` and `fence`; the presentation of `image_index` waits on
/// `signal_semaphore`.
#[derive(Clone, Copy, Debug, PartialEq, Eq, Structural)]
pub struct FrameSubmission {
    pub wait_semaphore: u64,
    pub wait_stage: u32,
    pub command_buffer: u64,
    pub signal_semaphore: u64,
    pub fence: u64,
    pub image_index: u32,
}

/// The slot that follows `frame`.
pub open spec fn next_frame_slot(frame: int) -> int {
    (frame + 1) % (MAX_FRAMES_IN_FLIGHT as int)
}

impl FrameSync {
    /// The slot is in range and every slot has its semaphores and fence.
    pub open spec fn wf(&self) -> bool {
        &&& self.current_frame < MAX_FRAMES_IN_FLIGHT
        &&& self.image_available_semaphores@.len() >= MAX_FRAMES_IN_FLIGHT
        &&& self.render_finished_semaphores@.len() >= MAX_FRAMES_IN_FLIGHT
        &&& self.in_flight_fences@.len() >= MAX_FRAMES_IN_FLIGHT
    }

    /// Whether the slot is in range and every slot has its objects.
    pub fn wf_holds(&self) -> (r: bool)
        ensures
            r == self.wf(),
    {
        self.current_frame < MAX_FRAMES_IN_FLIGHT
            && self.image_available_semaphores.len() >= MAX_FRAMES_IN_FLIGHT
            && self.render_finished_semaphores.len() >= MAX_FRAMES_IN_FLIGHT
            && self.in_flight_fences.len() >= MAX_FRAMES_IN_FLIGHT
    }

    /// Frame pacing over the given per-slot objects, starting at slot 0.
    pub fn new(
        image_available_semaphores: Vec<u64>,
        render_finished_semaphores: Vec<u64>,
        in_flight_fences: Vec<u64>,
    ) -> (r: Self)
        requires
            image_available_semaphores@.len() >= MAX_FRAMES_IN_FLIGHT,
            render_finished_semaphores@.len() >= MAX_FRAMES_IN_FLIGHT,
            in_flight_fences@.len() >= MAX_FRAMES_IN_FLIGHT,
        ensures
            r.wf(),
            r.current_frame == 0,
            r.image_available_semaphores@ == image_available_semaphores@,
            r.render_finished_semaphores@ == render_finished_semaphores@,
            r.in_flight_fences@ == in_flight_fences@,
    {
        FrameSync {
            image_available_semaphores,
            render_finished_semaphores,
            in_flight_fences,
            current_frame: 0,
        }
    }

    /// The objects a frame of the current slot waits on before it starts.
    pub fn begin_frame(&self) -> (r: FrameStart)
        requires
            self.wf(),
        ensures
            r.wait_fence == self.in_flight_fences@[self.current_frame as int],
            r.acquire_semaphore == self.image_available_semaphores@[self.current_frame as int],
    {
        FrameStart {
            wait_fence: self.in_flight_fences[self.current_frame],
            acquire_semaphore: self.image_available_semaphores[self.current_frame],
        }
    }

    /// Finishes the frame of the current slot with the acquired image
    /// `image_index`: submits that image's command buffer, waiting on the
    /// slot's acquisition semaphore at the colour-output stage and signalling
    /// the slot's render semaphore and fence, presents the image once rendering
    /// is done, and moves on to the next slot.
    pub fn end_frame(&mut self, image_index: u32, command_buffers: &Vec<u64>) -> (r: FrameSubmission)
        requires
            old(self).wf(),
            image_index < command_buffers@.len(),
        ensures
            final(self).wf(),
            moved_on(*old(self), *final(self)),
            final(self).current_frame == (old(self).current_frame + 1) % (
            MAX_FRAMES_IN_FLIGHT as int),
            r.wait_semaphore == old(self).image_available_semaphores@[old(self).current_frame as int],
            r.wait_stage == PIPELINE_STAGE_COLOR_ATTACHMENT_OUTPUT,
            r.command_buffer == command_buffers@[image_index as int],
            r.signal_semaphore == old(self).render_finished_semaphores@[old(self).current_frame as int],
            r.fence == old(self).in_flight_fences@[old(self).current_frame as int],
            r.image_index == image_index,
    {
        let frame = self.current_frame;
        let submission = FrameSubmission {
            wait_semaphore: self.image_available_semaphores[frame],
            wait_stage: PIPELINE_STAGE_COLOR_ATTACHMENT_OUTPUT,
            command_buffer: command_buffers[image_index as usize],
            signal_semaphore: self.render_finished_semaphores[frame],
            fence: self.in_flight_fences[frame],
            image_index,
        };
        self.current_frame = (frame + 1) % MAX_FRAMES_IN_FLIGHT;
        submission
    }
}

/// Frame slots alternate: the next slot is never the current one, and after
/// `MAX_FRAMES_IN_FLIGHT` frames the slot comes round again.
pub proof fn lemma_frame_slots_cycle(frame: int)
    requires
        0 <= frame < MAX_FRAMES_IN_FLIGHT,
    ensures
        0 <= next_frame_slot(frame) < MAX_FRAMES_IN_FLIGHT,
        next_frame_slot(frame) != frame,
        next_frame_slot(next_frame_slot(frame)) == frame,
{
}

/// `after` is `before` moved on by one frame: the same objects, the next slot.
pub open spec fn moved_on(before: FrameSync, after: FrameSync) -> bool {
    &&& after.current_frame == next_frame_slot(before.current_frame as int)
    &&& after.image_available_semaphores@ == before.image_available_semaphores@
    &&& after.render_finished_semaphores@ == before.render_finished_semaphores@
    &&& after.in_flight_fences@ == before.in_flight_fences@
}

/// Two frames on, a frame starts by waiting on the fence that the submission
/// of the frame two before signalled: a slot's objects are not reused while its
/// work may still be in flight.
pub proof fn lemma_slot_reuse_waits_on_its_fence(first: FrameSync, second: FrameSync, third: FrameSync)
    requires
        first.wf(),
        moved_on(first, second),
        moved_on(second, third),
    ensures
        third.wf(),
        third.current_frame == first.current_frame,
        third.in_flight_fences@[third.current_frame as int] == first.in_flight_fences@[first.current_frame as int],
        third.image_available_semaphores@[third.current_frame as int]
            == first.image_available_semaphores@[first.current_frame as int],
{
    lemma_frame_slots_cycle(first.current_frame as int);
}

/// One object the renderer destroys when it is dropped.
#[derive(Clone, Copy, Debug, PartialEq, Eq, Structural)]
pub enum DestroyStep {
    Semaphore(u64),
    Fence(u64),
    CommandPool(u64),
    Framebuffer(u64),
    Pipeline(u64),
    PipelineLayout(u64),
    RenderPass(u64),
    ImageView(u64),
    Swapchain(u64),
    Device,
    Surface(u64),
    DebugMessenger(u64),
    Instance,
}

/// Everything the renderer created and must destroy.
pub struct RendererObjects {
    pub sync: FrameSync,
    pub command_pool: u64,
    pub framebuffers: Vec<u64>,
    pub graphics_pipeline: u64,
    pub pipeline_layout: u64,
    pub render_pass: u64,
    pub image_views: Vec<u64>,
    pub swapchain: u64,
    pub surface: u64,
    pub debug_messenger: u64,
}

/// The semaphores and fence of the first `slots` frame slots, slot by slot.
pub open spec fn sync_teardown(sync: FrameSync, slots: nat) -> Seq<DestroyStep>
    decreases slots,
{
    if slots == 0 {
        seq![]
    } else {
        let k = slots - 1;
        sync_teardown(sync, (slots - 1) as nat) + seq![
            DestroyStep::Semaphore(sync.image_available_semaphores@[k]),
            DestroyStep::Semaphore(sync.render_finished_semaphores@[k]),
            DestroyStep::Fence(sync.in_flight_fences@[k]),
        ]
    }
}

/// The objects destroyed before the device, in order.
pub open spec fn device_children_teardown(o: RendererObjects) -> Seq<DestroyStep> {
    sync_teardown(o.sync, MAX_FRAMES_IN_FLIGHT as nat) + seq![DestroyStep::CommandPool(o.command_pool)]
        + o.framebuffers@.map_values(|f: u64| DestroyStep::Framebuffer(f)) + seq![
        DestroyStep::Pipeline(o.graphics_pipeline),
        DestroyStep::PipelineLayout(o.pipeline_layout),
        DestroyStep::RenderPass(o.render_pass),
    ] + o.image_views@.map_values(|v: u64| DestroyStep::ImageView(v)) + seq![
        DestroyStep::Swapchain(o.swapchain),
    ]
}

/// The order in which the renderer destroys what it created: each frame slot's
/// semaphores and fence, the command pool, the framebuffers, the pipeline, its
/// layout and the render pass, the image views, the swapchain, the device, the
/// surface, the debug messenger (with validation on) and last the instance.
pub open spec fn teardown_order(o: RendererObjects) -> Seq<DestroyStep> {
    device_children_teardown(o) + seq![DestroyStep::Device, DestroyStep::Surface(o.surface)]
        + (if VALIDATION_ENABLED {
        seq![DestroyStep::DebugMessenger(o.debug_messenger)]
    } else {
        seq![]
    }) + seq![DestroyStep::Instance]
}

/// An object that belongs to the logical device.
pub open spec fn is_device_child(step: DestroyStep) -> bool {
    !(step is Device || step is Surface || step is DebugMessenger || step is Instance)
}

/// Lists what the renderer destroys when it is dropped, in the order it does so.
pub fn teardown_plan(objects: &RendererObjects) -> (r: Vec<DestroyStep>)
    requires
        objects.sync.wf(),
    ensures
        r@ == teardown_order(*objects),
        ({
            let s = r@;
            let sync = objects.sync;
            let nf = objects.framebuffers@.len() as int;
            let nv = objects.image_views@.len() as int;
            let m = MAX_FRAMES_IN_FLIGHT as int;
            &&& s.len() == 3 * m + nf + nv + 8 + (if VALIDATION_ENABLED { 1int } else { 0int })
            &&& forall|k: int|
                0 <= k < m ==> s[3 * k] == DestroyStep::Semaphore(
                    sync.image_available_semaphores@[k],
                ) && s[3 * k + 1] == DestroyStep::Semaphore(sync.render_finished_semaphores@[k])
                    && s[3 * k + 2] == DestroyStep::Fence(sync.in_flight_fences@[k])
            &&& s[3 * m] == DestroyStep::CommandPool(objects.command_pool)
            &&& forall|i: int|
                0 <= i < nf ==> s[3 * m + 1 + i] == DestroyStep::Framebuffer(objects.framebuffers@[i])
            &&& s[3 * m + 1 + nf] == DestroyStep::Pipeline(objects.graphics_pipeline)
            &&& s[3 * m + 2 + nf] == DestroyStep::PipelineLayout(objects.pipeline_layout)
            &&& s[3 * m + 3 + nf] == DestroyStep::RenderPass(objects.render_pass)
            &&& forall|i: int|
                0 <= i < nv ==> s[3 * m + 4 + nf + i] == DestroyStep::ImageView(objects.image_views@[i])
            &&& s[3 * m + 4 + nf + nv] == DestroyStep::Swapchain(objects.swapchain)
            &&& s[3 * m + 5 + nf + nv] == DestroyStep::Device
            &&& s[3 * m + 6 + nf + nv] == DestroyStep::Surface(objects.surface)
            &&& VALIDATION_ENABLED ==> s[3 * m + 7 + nf + nv] == DestroyStep::DebugMessenger(
                objects.debug_messenger,
            )
            &&& s[s.len() - 1] == DestroyStep::Instance
        }),
{
    let mut steps: Vec<DestroyStep> = Vec::new();
    let sync = &objects.sync;
    for i in 0..MAX_FRAMES_IN_FLIGHT
        invariant
            sync.wf(),
            steps@ == sync_teardown(*sync, i as nat),
    {
        steps.push(DestroyStep::Semaphore(sync.image_available_semaphores[i]));
        steps.push(DestroyStep::Semaphore(sync.render_finished_semaphores[i]));
        steps.push(DestroyStep::Fence(sync.in_flight_fences[i]));
        assert(steps@ =~= sync_teardown(*sync, (i + 1) as nat));
    }
    steps.push(DestroyStep::CommandPool(objects.command_pool));
    let ghost before = steps@;
    let n = objects.framebuffers.len();
    for i in 0..n
        invariant
            n == objects.framebuffers@.len(),
            steps@ == before + objects.framebuffers@.take(i as int).map_values(
                |f: u64| DestroyStep::Framebuffer(f),
            ),
    {
        steps.push(DestroyStep::Framebuffer(objects.framebuffers[i]));
        assert(objects.framebuffers@.take(i + 1).map_values(|f: u64| DestroyStep::Framebuffer(f))
            =~= objects.framebuffers@.take(i as int).map_values(|f: u64| DestroyStep::Framebuffer(f)).push(
            DestroyStep::Framebuffer(objects.framebuffers@[i as int]),
        ));
    }
    assert(objects.framebuffers@.take(n as int) =~= objects.framebuffers@);
    steps.push(DestroyStep::Pipeline(objects.graphics_pipeline));
    steps.push(DestroyStep::PipelineLayout(objects.pipeline_layout));
    steps.push(DestroyStep::RenderPass(objects.render_pass));
    let ghost before = steps@;
    let n = objects.image_views.len();
    for i in 0..n
        invariant
            n == objects.image_views@.len(),
            steps@ == before + objects.image_views@.take(i as int).map_values(
                |v: u64| DestroyStep::ImageView(v),
            ),
    {
        steps.push(DestroyStep::ImageView(objects.image_views[i]));
        assert(objects.image_views@.take(i + 1).map_values(|v: u64| DestroyStep::ImageView(v))
            =~= objects.image_views@.take(i as int).map_values(|v: u64| DestroyStep::ImageView(v)).push(
            DestroyStep::ImageView(objects.image_views@[i as int]),
        ));
    }
    assert(objects.image_views@.take(n as int) =~= objects.image_views@);
    steps.push(DestroyStep::Swapchain(objects.swapchain));
    steps.push(DestroyStep::Device);
    steps.push(DestroyStep::Surface(objects.surface));
    if VALIDATION_ENABLED {
        steps.push(DestroyStep::DebugMessenger(objects.debug_messenger));
    }
    steps.push(DestroyStep::Instance);
    assert(steps@ =~= teardown_order(*objects));
    proof {
        lemma_teardown_destroys_everything(*objects);
    }
    steps
}

proof fn lemma_sync_teardown_device_children(sync: FrameSync, slots: nat)
    ensures
        sync_teardown(sync, slots).len() == 3 * slots,
        forall|i: int|
            0 <= i < sync_teardown(sync, slots).len() ==> is_device_child(
                #[trigger] sync_teardown(sync, slots)[i],
            ),
    decreases slots,
{
    if slots > 0 {
        lemma_sync_teardown_device_children(sync, (slots - 1) as nat);
    }
}

proof fn lemma_sync_teardown_slots(sync: FrameSync, slots: nat)
    ensures
        sync_teardown(sync, slots).len() == 3 * slots,
        forall|k: int|
            0 <= k < slots ==> sync_teardown(sync, slots)[3 * k] == DestroyStep::Semaphore(
                sync.image_available_semaphores@[k],
            ) && sync_teardown(sync, slots)[3 * k + 1] == DestroyStep::Semaphore(
                sync.render_finished_semaphores@[k],
            ) && sync_teardown(sync, slots)[3 * k + 2] == DestroyStep::Fence(
                sync.in_flight_fences@[k],
            ),
    decreases slots,
{
    if slots > 0 {
        lemma_sync_teardown_slots(sync, (slots - 1) as nat);
        let prev = sync_teardown(sync, (slots - 1) as nat);
        let cur = sync_teardown(sync, slots);
        assert forall|k: int| 0 <= k < slots implies #[trigger] sync.image_available_semaphores@[k]
            == sync.image_available_semaphores@[k] && cur[3 * k] == DestroyStep::Semaphore(
            sync.image_available_semaphores@[k],
        ) && cur[3 * k + 1] == DestroyStep::Semaphore(sync.render_finished_semaphores@[k])
            && cur[3 * k + 2] == DestroyStep::Fence(sync.in_flight_fences@[k]) by {
            if k < slots - 1 {
                assert(cur[3 * k] == prev[3 * k]);
                assert(cur[3 * k + 1] == prev[3 * k + 1]);
                assert(cur[3 * k + 2] == prev[3 * k + 2]);
            }
        }
    }
}

/// Dropping the renderer destroys each frame slot's two semaphores and fence,
/// the command pool, every framebuffer, the pipeline, its layout, the render
/// pass, every image view, the swapchain, the device, the surface, the debug
/// messenger (with validation on) and the instance, each exactly at the stated
/// place, and nothing else.
pub proof fn lemma_teardown_destroys_everything(objects: RendererObjects)
    ensures
        ({
            let s = teardown_order(objects);
            let sync = objects.sync;
            let nf = objects.framebuffers@.len() as int;
            let nv = objects.image_views@.len() as int;
            let m = MAX_FRAMES_IN_FLIGHT as int;
            &&& s.len() == 3 * m + nf + nv + 8 + (if VALIDATION_ENABLED { 1int } else { 0int })
            &&& forall|k: int|
                0 <= k < m ==> s[3 * k] == DestroyStep::Semaphore(
                    sync.image_available_semaphores@[k],
                ) && s[3 * k + 1] == DestroyStep::Semaphore(sync.render_finished_semaphores@[k])
                    && s[3 * k + 2] == DestroyStep::Fence(sync.in_flight_fences@[k])
            &&& s[3 * m] == DestroyStep::CommandPool(objects.command_pool)
            &&& forall|i: int|
                0 <= i < nf ==> s[3 * m + 1 + i] == DestroyStep::Framebuffer(objects.framebuffers@[i])
            &&& s[3 * m + 1 + nf] == DestroyStep::Pipeline(objects.graphics_pipeline)
            &&& s[3 * m + 2 + nf] == DestroyStep::PipelineLayout(objects.pipeline_layout)
            &&& s[3 * m + 3 + nf] == DestroyStep::RenderPass(objects.render_pass)
            &&& forall|i: int|
                0 <= i < nv ==> s[3 * m + 4 + nf + i] == DestroyStep::ImageView(objects.image_views@[i])
            &&& s[3 * m + 4 + nf + nv] == DestroyStep::Swapchain(objects.swapchain)
            &&& s[3 * m + 5 + nf + nv] == DestroyStep::Device
            &&& s[3 * m + 6 + nf + nv] == DestroyStep::Surface(objects.surface)
            &&& VALIDATION_ENABLED ==> s[3 * m + 7 + nf + nv] == DestroyStep::DebugMessenger(
                objects.debug_messenger,
            )
            &&& s[s.len() - 1] == DestroyStep::Instance
        }),
{
    let m = MAX_FRAMES_IN_FLIGHT as int;
    let nf = objects.framebuffers@.len() as int;
    let nv = objects.image_views@.len() as int;
    lemma_sync_teardown_slots(objects.sync, MAX_FRAMES_IN_FLIGHT as nat);
    let sync = sync_teardown(objects.sync, MAX_FRAMES_IN_FLIGHT as nat);
    let fbs = objects.framebuffers@.map_values(|f: u64| DestroyStep::Framebuffer(f));
    let views = objects.image_views@.map_values(|v: u64| DestroyStep::ImageView(v));
    let children = device_children_teardown(objects);
    let s = teardown_order(objects);
    assert forall|i: int| 0 <= i < children.len() implies #[trigger] s[i] == children[i] by {}
    assert forall|k: int| 0 <= k < 3 * m implies #[trigger] children[k] == sync[k] by {}
    assert forall|i: int| 0 <= i < nf implies children[3 * m + 1 + i] == fbs[i] by {}
    assert forall|i: int| 0 <= i < nv implies children[3 * m + 4 + nf + i] == views[i] by {}
    assert forall|k: int| 0 <= k < m implies s[3 * k] == DestroyStep::Semaphore(
        objects.sync.image_available_semaphores@[k],
    ) && s[3 * k + 1] == DestroyStep::Semaphore(objects.sync.render_finished_semaphores@[k])
        && s[3 * k + 2] == DestroyStep::Fence(objects.sync.in_flight_fences@[k]) by {
        assert(s[3 * k] == children[3 * k]);
        assert(s[3 * k + 1] == children[3 * k + 1]);
        assert(s[3 * k + 2] == children[3 * k + 2]);
    }
    assert forall|i: int| 0 <= i < nf implies s[3 * m + 1 + i] == DestroyStep::Framebuffer(
        objects.framebuffers@[i],
    ) by {
        assert(s[3 * m + 1 + i] == children[3 * m + 1 + i]);
    }
    assert forall|i: int| 0 <= i < nv implies s[3 * m + 4 + nf + i] == DestroyStep::ImageView(
        objects.image_views@[i],
    ) by {
        assert(s[3 * m + 4 + nf + i] == children[3 * m + 4 + nf + i]);
    }
    assert(s[3 * m] == children[3 * m]);
    assert(s[3 * m + 1 + nf] == children[3 * m + 1 + nf]);
    assert(s[3 * m + 2 + nf] == children[3 * m + 2 + nf]);
    assert(s[3 * m + 3 + nf] == children[3 * m + 3 + nf]);
    assert(s[3 * m + 4 + nf + nv] == children[3 * m + 4 + nf + nv]);
}

/// The renderer destroys every object of the device before the device, the
/// device exactly once, and the instance last and once.
pub proof fn lemma_teardown_respects_ownership(objects: RendererObjects)
    ensures
        ({
            let steps = teardown_order(objects);
            let device_at = device_children_teardown(objects).len() as int;
            &&& steps[device_at] == DestroyStep::Device
            &&& forall|i: int| 0 <= i < device_at ==> is_device_child(#[trigger] steps[i])
            &&& forall|i: int|
                device_at < i < steps.len() ==> !is_device_child(#[trigger] steps[i]) && steps[i]
                    != DestroyStep::Device
            &&& steps.last() == DestroyStep::Instance
            &&& forall|i: int| 0 <= i < steps.len() - 1 ==> #[trigger] steps[i] != DestroyStep::Instance
        }),
{
    let children = device_children_teardown(objects);
    let steps = teardown_order(objects);
    lemma_sync_teardown_device_children(objects.sync, MAX_FRAMES_IN_FLIGHT as nat);
    let sync = sync_teardown(objects.sync, MAX_FRAMES_IN_FLIGHT as nat);
    let fbs = objects.framebuffers@.map_values(|f: u64| DestroyStep::Framebuffer(f));
    let views = objects.image_views@.map_values(|v: u64| DestroyStep::ImageView(v));
    assert forall|i: int| 0 <= i < children.len() implies is_device_child(#[trigger] children[i]) by {
        let a = sync.len() as int;
        let b = a + 1;
        let c = b + fbs.len();
        let d = c + 3;
        let e = d + views.len();
        if i < a {
            assert(children[i] == sync[i]);
        } else if i < b {
        } else if i < c {
            assert(children[i] == fbs[i - b]);
        } else if i < d {
        } else if i < e {
            assert(children[i] == views[i - d]);
        } else {
        }
    }
    assert forall|i: int| 0 <= i < children.len() implies #[trigger] steps[i] == children[i] by {}
}

} // verus!
