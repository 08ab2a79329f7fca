//! The frame lifecycle: acquire an image, record commands, submit, present.
//!
//! `VkRenderer` holds what the renderer knows between two calls of the
//! driver: the extent and length of the image chain, the framebuffers built
//! for it, whether the surface has gone stale, the one live completion
//! signal, the acquired image slot and the batch being recorded. It touches
//! no GPU itself. Where outside work is needed (rebuilding the image chain,
//! acquiring an image, submitting a batch) a method says so in its result,
//! and the driver reports how the work went through the next method.
//!
//! The steps of a frame are to be taken in order, and a failure of the
//! device that is neither an out-of-date chain nor an unsupported extent
//! ends the frame loop. A step does not take input that is out of order or
//! tells of such a failure; beside each step stands a function that names
//! the reason for which it would be refused, for the driver to ask first.

use vstd::prelude::*;
use crate::batch::{BatchError, ClearValues, Command, CommandBatch, Framebuffer, SealedBatch};
use crate::batch::pass_open;
use crate::signal::Signal;
use crate::texture::{Loaded, ResourceCache, TextureEntry};

verus! {

/// The extent used when the surface reports none of its own.
pub const DEFAULT_DIMENSIONS: [u32; 2] = [1024, 768];

/// The colour every render pass clears to: an opaque blue.
pub const CLEAR_COLOR: [u8; 4] = [0, 0, 255, 255];

/// The depth every render pass clears to: the far end of the range.
pub const CLEAR_DEPTH: u8 = 255;

/// Where the renderer stands in the life of a frame.
#[derive(Clone, Copy, PartialEq, Eq, Structural, Debug)]
pub enum Phase {
    /// Between frames.
    Idle,
    /// A frame was started on a stale surface; the driver rebuilds the image
    /// chain.
    Recreating,
    /// The driver acquires the next image. `resized` tells whether the
    /// framebuffers were built anew for this frame.
    Acquiring { resized: bool },
    /// An image is acquired; commands are recorded.
    Recording,
    /// The batch was handed out for submission; the driver presents.
    Presenting,
}

/// What the driver does next to bring a frame under way.
#[derive(Clone, Copy, PartialEq, Eq, Structural, Debug)]
pub enum FrameStep {
    /// Rebuild the image chain for the surface's current extent, and report
    /// with `swapchain_recreated`.
    RecreateSwapchain,
    /// Acquire the next image, and report with `image_acquired`. Where
    /// `rebuilt` holds, the framebuffers were planned anew: make them first.
    AcquireImage { rebuilt: bool },
    /// The frame is under way. Where `resized` holds, what depends on the
    /// extent is to be refreshed.
    Ready { resized: bool },
    /// No frame this time; start again on the next tick.
    Skip,
}

/// Why the image chain could not be rebuilt.
#[derive(Clone, Copy, PartialEq, Eq, Structural, Debug)]
pub enum RecreateError {
    /// The surface reports an extent that the backend rejects, as happens
    /// while a window is being resized.
    UnsupportedDimensions,
    /// Anything else.
    Other,
}

/// Why no image could be acquired.
#[derive(Clone, Copy, PartialEq, Eq, Structural, Debug)]
pub enum AcquireError {
    /// The image chain no longer fits the surface.
    OutOfDate,
    /// Anything else.
    Other,
}

/// Why a submission could not be flushed.
#[derive(Clone, Copy, PartialEq, Eq, Structural, Debug)]
pub enum FlushError {
    /// The image chain no longer fits the surface.
    OutOfDate,
    /// Anything else.
    Other,
}

/// A misuse of the renderer, or a failure of the device, after which the
/// frame loop cannot go on. The steps of a frame do not take such input: each
/// has a companion that names the reason for which it would be refused, for
/// the driver to ask first and stop on.
#[derive(Clone, Copy, PartialEq, Eq, Structural, Debug)]
pub enum FrameError {
    /// A frame was started while another was under way.
    FrameInProgress,
    /// The driver reported on work that it was not asked for.
    OutOfOrder,
    /// The image chain could not be rebuilt, for another reason than an
    /// unsupported extent.
    SwapchainCreation,
    /// Acquisition failed, for another reason than an out-of-date chain.
    Acquisition,
    /// The driver reported an image for which the chain has no framebuffer.
    ImageOutOfRange,
    /// No image is acquired: no frame was started.
    NoImageAcquired,
    /// There is no batch to commit.
    NoCommandBatch,
    /// There is no completion signal to chain the frame after.
    NoCompletionSignal,
    /// The batch refused a command.
    Batch(BatchError),
}

/// How a frame ended.
#[derive(Debug, PartialEq, Eq)]
pub enum FrameEnd {
    /// The frame was submitted; its completion is the new live signal.
    Presented,
    /// The image chain had gone out of date and the frame was dropped. What
    /// it waited for is handed back to be waited out.
    Dropped { retired: Signal },
    /// The submission failed and the frame was dropped; the failure is to be
    /// logged. What the frame waited for is handed back to be waited out.
    Failed { retired: Signal },
}

/// The image that a frame renders to, the framebuffer built for it, and the
/// signal of its availability.
#[derive(Debug)]
pub struct AcquiredSlot {
    pub image: usize,
    pub framebuffer: Framebuffer,
    pub available: Signal,
}

/// What the driver submits for one frame.
#[derive(Debug)]
pub struct Submission {
    /// The commands, sealed.
    pub batch: SealedBatch,
    /// The image to present once the commands have run.
    pub image: usize,
    /// The handles that the batch runs after.
    pub wait_for: Vec<u64>,
}

/// The part of the framebuffer that is drawn to. The depth range is given in
/// 255ths.
#[derive(Clone, Copy, Debug, PartialEq, Eq)]
pub struct Viewport {
    pub origin: [u32; 2],
    pub dimensions: [u32; 2],
    pub depth_range: [u8; 2],
}

/// The viewport that covers a surface of the given extent, over the whole
/// depth range.
pub open spec fn viewport_of(dimensions: [u32; 2]) -> Viewport {
    Viewport { origin: [0u32, 0u32], dimensions, depth_range: [0u8, 255u8] }
}

/// One queue family of a device, as far as choosing one goes.
#[derive(Clone, Copy, Debug, PartialEq, Eq)]
pub struct QueueFamily {
    pub supports_graphics: bool,
    /// Whether it can present to the surface; `None` where asking failed.
    pub supports_surface: Option<bool>,
}

impl QueueFamily {
    /// Whether the family can both draw and present.
    pub open spec fn suitable(self) -> bool {
        self.supports_graphics && self.supports_surface == Some(true)
    }
}

/// Whether family `i` is the first of `families` that can both draw and
/// present.
pub open spec fn is_first_suitable(families: Seq<QueueFamily>, i: int) -> bool {
    &&& 0 <= i < families.len()
    &&& families[i].suitable()
    &&& forall|j: int| 0 <= j < i ==> !(#[trigger] families[j]).suitable()
}

/// Whether one of `families` can both draw and present.
pub open spec fn has_suitable(families: Seq<QueueFamily>) -> bool {
    exists|i: int| 0 <= i < families.len() && (#[trigger] families[i]).suitable()
}

/// The first queue family that can both draw and present to the surface.
pub fn choose_queue_family(families: &Vec<QueueFamily>) -> (chosen: Option<usize>)
    ensures
        match chosen {
            Some(i) => is_first_suitable(families@, i as int),
            None => !has_suitable(families@),
        },
{
    let mut i: usize = 0;
    while i < families.len()
        invariant
            i <= families.len(),
            forall|j: int| 0 <= j < i ==> !(#[trigger] families@[j]).suitable(),
        decreases families.len() - i,
    {
        let family = families[i];
        let presents = match family.supports_surface {
            Some(b) => b,
            None => false,
        };
        if family.supports_graphics && presents {
            return Some(i);
        }
        i += 1;
    }
    None
}

/// The extent to build the first image chain with: the surface's own, or
/// the default where the surface leaves the choice open.
pub fn initial_dimensions(current_extent: Option<[u32; 2]>) -> (dimensions: [u32; 2])
    ensures
        dimensions == match current_extent {
            Some(extent) => extent,
            None => DEFAULT_DIMENSIONS,
        },
{
    match current_extent {
        Some(extent) => extent,
        None => DEFAULT_DIMENSIONS,
    }
}

/// One framebuffer for each image of a chain, all of the same extent.
pub open spec fn framebuffers_for(images: usize, dimensions: [u32; 2]) -> Seq<Framebuffer> {
    Seq::new(images as nat, |i: int| Framebuffer { image: i as usize, dimensions })
}

/// Builds the framebuffers of a chain: one for each image, pairing it with
/// the depth attachment of the given extent.
pub fn build_framebuffers(images: usize, dimensions: [u32; 2]) -> (framebuffers: Vec<Framebuffer>)
    ensures
        framebuffers@ == framebuffers_for(images, dimensions),
{
    let mut framebuffers: Vec<Framebuffer> = Vec::new();
    let mut i: usize = 0;
    while i < images
        invariant
            i <= images,
            framebuffers@.len() == i,
            forall|j: int|
                0 <= j < i ==> #[trigger] framebuffers@[j] == (Framebuffer {
                    image: j as usize,
                    dimensions,
                }),
        decreases images - i,
    {
        framebuffers.push(Framebuffer { image: i, dimensions });
        i += 1;
    }
    assert(framebuffers@ =~= framebuffers_for(images, dimensions));
    framebuffers
}

/// What a renderer holds, as plain mathematical values.
pub struct RendererState {
    /// The queue family that draws and presents.
    pub queue_family: usize,
    /// The extent that the surface last reported.
    pub dimensions: [u32; 2],
    /// The number of images in the chain.
    pub images: usize,
    /// The framebuffers of the chain, absent until built for it.
    pub framebuffers: Option<Seq<Framebuffer>>,
    /// Whether the surface has gone stale, so that the chain must be rebuilt.
    pub recreate_swapchain: bool,
    /// The one live completion signal.
    pub previous_frame_end: Option<Signal>,
    /// The acquired image slot.
    pub slot: Option<AcquiredSlot>,
    /// The commands of the batch being recorded.
    pub commands: Option<Seq<Command>>,
    pub phase: Phase,
    /// The textures loaded so far, by path.
    pub textures: Map<Seq<char>, TextureEntry>,
}

impl RendererState {
    /// What holds of every renderer between two calls of the frame loop.
    pub open spec fn valid(self) -> bool {
        &&& self.framebuffers matches Some(fbs) ==> {
            &&& fbs.len() == self.images
            &&& forall|i: int|
                0 <= i < fbs.len() ==> {
                    &&& (#[trigger] fbs[i]).image == i
                    &&& !self.recreate_swapchain ==> fbs[i].dimensions == self.dimensions
                }
        }
        &&& self.slot is Some <==> self.phase is Recording
        &&& self.slot matches Some(slot) ==> self.framebuffer_of(slot.image) == Some(
            slot.framebuffer,
        )
        &&& self.phase is Recording ==> self.commands is Some
        &&& self.phase is Recreating ==> self.recreate_swapchain
        &&& self.phase is Acquiring ==> self.framebuffers is Some
        &&& !(self.phase is Idle) ==> self.previous_frame_end is Some
    }

    /// The state of a new renderer.
    pub open spec fn initial(queue_family: usize, dimensions: [u32; 2], images: usize)
        -> RendererState {
        RendererState {
            queue_family,
            dimensions,
            images,
            framebuffers: None,
            recreate_swapchain: false,
            previous_frame_end: None,
            slot: None,
            commands: None,
            phase: Phase::Idle,
            textures: Map::empty(),
        }
    }

    /// The live signal once the handles in `finished` are known to have
    /// completed: the previous signal without them, or a satisfied signal
    /// where there was none.
    pub open spec fn polled(self, finished: Seq<u64>) -> Signal {
        match self.previous_frame_end {
            Some(signal) => signal.pruned(finished),
            None => Signal::Ready,
        }
    }

    /// The commands recorded so far; none where no batch is pending.
    pub open spec fn recorded(self) -> Seq<Command> {
        match self.commands {
            Some(commands) => commands,
            None => Seq::empty(),
        }
    }

    /// The framebuffer built for `image`, if there is one.
    pub open spec fn framebuffer_of(self, image: usize) -> Option<Framebuffer> {
        match self.framebuffers {
            Some(fbs) if image < fbs.len() => Some(fbs[image as int]),
            _ => None,
        }
    }

    /// This state made ready for acquisition: framebuffers are planned where
    /// they were absent, and the driver is awaited.
    pub open spec fn awaiting_image(self) -> RendererState {
        RendererState {
            framebuffers: Some(
                match self.framebuffers {
                    Some(fbs) => fbs,
                    None => framebuffers_for(self.images, self.dimensions),
                },
            ),
            phase: Phase::Acquiring { resized: self.framebuffers is None },
            ..self
        }
    }

    /// A resize notification: the surface is stale from now on.
    pub open spec fn on_surface_invalidated(self) -> RendererState {
        RendererState { recreate_swapchain: true, ..self }
    }

    /// Why a frame cannot be started, if it cannot: another is under way.
    pub open spec fn start_refused(self) -> Option<FrameError> {
        if self.phase is Idle {
            None
        } else {
            Some(FrameError::FrameInProgress)
        }
    }

    /// Starting a frame: the state after it, and what the driver does next.
    pub open spec fn start_next_frame(self, finished: Seq<u64>) -> (RendererState, FrameStep) {
        let polled = RendererState { previous_frame_end: Some(self.polled(finished)), ..self };
        if self.recreate_swapchain {
            (RendererState { phase: Phase::Recreating, ..polled }, FrameStep::RecreateSwapchain)
        } else {
            (
                polled.awaiting_image(),
                FrameStep::AcquireImage { rebuilt: self.framebuffers is None },
            )
        }
    }

    /// Rebuilding the image chain: the extent that the surface reported is
    /// recorded in any case; a new chain takes the place of the old one and
    /// leaves the framebuffers absent.
    pub open spec fn recreate_swapchain(
        self,
        extent: [u32; 2],
        outcome: Result<usize, RecreateError>,
    ) -> RendererState {
        match outcome {
            Ok(images) => RendererState {
                dimensions: extent,
                images,
                framebuffers: None,
                ..self
            },
            Err(_) => RendererState { dimensions: extent, ..self },
        }
    }

    /// Why a report on rebuilding cannot be taken, if it cannot: none was
    /// asked for, or rebuilding failed for another reason than an
    /// unsupported extent.
    pub open spec fn recreated_refused(self, outcome: Result<usize, RecreateError>) -> Option<
        FrameError,
    > {
        if !(self.phase is Recreating) {
            Some(FrameError::OutOfOrder)
        } else if outcome == Err::<usize, RecreateError>(RecreateError::Other) {
            Some(FrameError::SwapchainCreation)
        } else {
            None
        }
    }

    /// The driver's report on rebuilding the image chain, in the course of a
    /// frame: the chain is rebuilt as above; with a new chain the surface is
    /// current again and an image is acquired next, else the frame is
    /// skipped and the surface stays stale.
    pub open spec fn swapchain_recreated(
        self,
        extent: [u32; 2],
        outcome: Result<usize, RecreateError>,
    ) -> (RendererState, FrameStep) {
        let rebuilt = self.recreate_swapchain(extent, outcome);
        if outcome is Ok {
            (
                RendererState { recreate_swapchain: false, ..rebuilt }.awaiting_image(),
                FrameStep::AcquireImage { rebuilt: true },
            )
        } else {
            (RendererState { phase: Phase::Idle, ..rebuilt }, FrameStep::Skip)
        }
    }

    /// Why a report on acquisition cannot be taken, if it cannot: none was
    /// asked for, acquisition failed for another reason than an out-of-date
    /// chain, or the image has no framebuffer.
    pub open spec fn acquired_refused(self, outcome: Result<(usize, u64), AcquireError>)
        -> Option<FrameError> {
        if !(self.phase is Acquiring) {
            Some(FrameError::OutOfOrder)
        } else {
            match outcome {
                Ok((image, _)) => if self.framebuffer_of(image) is None {
                    Some(FrameError::ImageOutOfRange)
                } else {
                    None
                },
                Err(AcquireError::OutOfDate) => None,
                Err(AcquireError::Other) => Some(FrameError::Acquisition),
            }
        }
    }

    /// The driver's report on acquisition: with an image the slot is stored,
    /// a batch is pending, and the frame is under way; with an out-of-date
    /// chain the surface is stale and the frame is skipped.
    pub open spec fn image_acquired(self, outcome: Result<(usize, u64), AcquireError>) -> (
        RendererState,
        FrameStep,
    ) {
        match outcome {
            Ok((image, available)) => (
                RendererState {
                    slot: Some(
                        AcquiredSlot {
                            image,
                            framebuffer: self.framebuffer_of(image)->Some_0,
                            available: Signal::Pending(available),
                        },
                    ),
                    commands: Some(self.recorded()),
                    phase: Phase::Recording,
                    ..self
                },
                FrameStep::Ready { resized: self.phase->resized },
            ),
            Err(_) => (
                RendererState { recreate_swapchain: true, phase: Phase::Idle, ..self },
                FrameStep::Skip,
            ),
        }
    }

    /// Why a render pass cannot be begun, if it cannot.
    pub open spec fn begin_refused(self) -> Option<FrameError> {
        if self.slot is None {
            Some(FrameError::NoImageAcquired)
        } else if pass_open(self.recorded()) {
            Some(FrameError::Batch(BatchError::ForbiddenInsideRenderPass))
        } else {
            None
        }
    }

    /// Beginning the render pass of the frame: the pass is begun on the
    /// framebuffer of the slot, with the fixed clear values.
    pub open spec fn begin_rendering(self) -> RendererState {
        RendererState {
            commands: Some(
                self.recorded().push(
                    Command::BeginRenderPass {
                        framebuffer: self.slot->Some_0.framebuffer,
                        clear: ClearValues { color: CLEAR_COLOR, depth: CLEAR_DEPTH },
                    },
                ),
            ),
            ..self
        }
    }

    /// Why the frame cannot be committed, if it cannot.
    pub open spec fn commit_refused(self) -> Option<FrameError> {
        if self.commands is None {
            Some(FrameError::NoCommandBatch)
        } else if self.previous_frame_end is None {
            Some(FrameError::NoCompletionSignal)
        } else if self.slot is None {
            Some(FrameError::NoImageAcquired)
        } else {
            None
        }
    }

    /// The commands of the committed frame: what was recorded, with the
    /// render pass ended if one is open.
    pub open spec fn sealed(self) -> Seq<Command> {
        if pass_open(self.recorded()) {
            self.recorded().push(Command::EndRenderPass)
        } else {
            self.recorded()
        }
    }

    /// The signal that the committed frame runs after: the live signal
    /// joined with the availability of the acquired image.
    pub open spec fn chained(self) -> Signal {
        self.previous_frame_end->Some_0.joined(self.slot->Some_0.available)
    }

    /// The state after the frame was committed: slot and batch are given
    /// away, the live signal is the chain, and the driver presents.
    pub open spec fn committed(self) -> RendererState {
        RendererState {
            previous_frame_end: Some(self.chained()),
            slot: None,
            commands: None,
            phase: Phase::Presenting,
            ..self
        }
    }

    /// Why a report on submission cannot be taken, if it cannot.
    pub open spec fn finish_refused(self) -> Option<FrameError> {
        if !(self.phase is Presenting) {
            Some(FrameError::OutOfOrder)
        } else if self.previous_frame_end is None {
            Some(FrameError::NoCompletionSignal)
        } else {
            None
        }
    }

    /// The driver's report on submission: the handle of the submitted work,
    /// or why it was not submitted.
    pub open spec fn finish_frame(self, outcome: Result<u64, FlushError>) -> RendererState {
        match outcome {
            Ok(work) => RendererState {
                previous_frame_end: Some(self.previous_frame_end->Some_0.followed_by(work)),
                phase: Phase::Idle,
                ..self
            },
            Err(FlushError::OutOfDate) => RendererState {
                previous_frame_end: Some(Signal::Ready),
                recreate_swapchain: true,
                phase: Phase::Idle,
                ..self
            },
            Err(FlushError::Other) => RendererState {
                previous_frame_end: Some(Signal::Ready),
                phase: Phase::Idle,
                ..self
            },
        }
    }

    /// How the frame ended, by the driver's report on submission. Where the
    /// frame was dropped, what it waited for is handed back.
    pub open spec fn frame_end(self, outcome: Result<u64, FlushError>) -> FrameEnd {
        match outcome {
            Ok(_) => FrameEnd::Presented,
            Err(FlushError::OutOfDate) => FrameEnd::Dropped {
                retired: self.previous_frame_end->Some_0,
            },
            Err(FlushError::Other) => FrameEnd::Failed { retired: self.previous_frame_end->Some_0 },
        }
    }

    /// The state after a texture was uploaded and cached under `path`: the
    /// upload is joined into the live signal.
    pub open spec fn with_texture(self, path: Seq<char>, loaded: Loaded) -> RendererState {
        RendererState {
            previous_frame_end: Some(
                match self.previous_frame_end {
                    Some(signal) => signal.joined(Signal::Pending(loaded.pending)),
                    None => Signal::Pending(loaded.pending),
                },
            ),
            textures: self.textures.insert(path, loaded.entry),
            ..self
        }
    }
}

/// The renderer's side of the frame loop.
pub struct VkRenderer {
    queue_family: usize,
    dimensions: [u32; 2],
    images: usize,
    framebuffers: Option<Vec<Framebuffer>>,
    recreate_swapchain: bool,
    previous_frame_end: Option<Signal>,
    slot: Option<AcquiredSlot>,
    command_buffer_builder: Option<CommandBatch>,
    phase: Phase,
    texture_store: ResourceCache,
}

impl View for VkRenderer {
    type V = RendererState;

    closed spec fn view(&self) -> RendererState {
        RendererState {
            queue_family: self.queue_family,
            dimensions: self.dimensions,
            images: self.images,
            framebuffers: match self.framebuffers {
                Some(fbs) => Some(fbs@),
                None => None,
            },
            recreate_swapchain: self.recreate_swapchain,
            previous_frame_end: self.previous_frame_end,
            slot: self.slot,
            commands: match self.command_buffer_builder {
                Some(batch) => Some(batch@),
                None => None,
            },
            phase: self.phase,
            textures: self.texture_store@,
        }
    }
}

impl VkRenderer {
    /// A renderer that draws and presents on the first suitable one of
    /// `families`, for an image chain of `images` images of the given
    /// extent. Nothing is acquired, recorded or loaded yet, and the
    /// framebuffers are built when the first frame starts. There is no
    /// renderer without a queue family that can both draw and present.
    pub fn new(families: &Vec<QueueFamily>, dimensions: [u32; 2], images: usize) -> (renderer:
        VkRenderer)
        requires
            has_suitable(families@),
        ensures
            is_first_suitable(families@, renderer@.queue_family as int),
            renderer@ == RendererState::initial(renderer@.queue_family, dimensions, images),
            renderer@.valid(),
    {
        let queue_family = choose_queue_family(families).unwrap();
        VkRenderer {
            queue_family,
            dimensions,
            images,
            framebuffers: None,
            recreate_swapchain: false,
            previous_frame_end: None,
            slot: None,
            command_buffer_builder: None,
            phase: Phase::Idle,
            texture_store: ResourceCache::new(),
        }
    }

    /// Takes note that the surface changed size. Only the flag is set: the
    /// image chain is rebuilt when the next frame starts.
    pub fn on_surface_invalidated(&mut self)
        ensures
            final(self)@ == old(self)@.on_surface_invalidated(),
            old(self)@.valid() ==> final(self)@.valid(),
    {
        self.recreate_swapchain = true;
    }

    /// Puts the renderer in the state from which an image is acquired.
    fn await_image(&mut self) -> (rebuilt: bool)
        ensures
            final(self)@ == old(self)@.awaiting_image(),
            rebuilt == old(self)@.framebuffers is None,
    {
        let rebuilt = self.framebuffers.is_none();
        if rebuilt {
            self.framebuffers = Some(build_framebuffers(self.images, self.dimensions));
        }
        self.phase = Phase::Acquiring { resized: rebuilt };
        rebuilt
    }

    /// Why a frame cannot be started now, if it cannot.
    pub fn start_refused(&self) -> (refused: Option<FrameError>)
        ensures
            refused == self@.start_refused(),
    {
        match self.phase {
            Phase::Idle => None,
            _ => Some(FrameError::FrameInProgress),
        }
    }

    /// Starts a frame. `finished` lists the handles that the driver has seen
    /// complete since it last reported; they are dropped from the live
    /// signal, and a satisfied signal is installed where there was none.
    /// The result tells the driver what to do next: rebuild the image chain
    /// where the surface is stale, else acquire an image. No frame is
    /// started while another is under way.
    pub fn start_next_frame(&mut self, finished: &Vec<u64>) -> (step: FrameStep)
        requires
            old(self)@.start_refused() is None,
        ensures
            final(self)@ == old(self)@.start_next_frame(finished@).0,
            step == old(self)@.start_next_frame(finished@).1,
            old(self)@.valid() ==> final(self)@.valid(),
    {
        let polled = match self.previous_frame_end.take() {
            Some(signal) => signal.cleanup_finished(finished),
            None => Signal::now(),
        };
        self.previous_frame_end = Some(polled);
        if self.recreate_swapchain {
            self.phase = Phase::Recreating;
            FrameStep::RecreateSwapchain
        } else {
            let rebuilt = self.await_image();
            FrameStep::AcquireImage { rebuilt }
        }
    }

    /// Takes note that the image chain was rebuilt, or that it could not be.
    /// `extent` is what the surface reported and is recorded in any case.
    /// Where `outcome` is the length of a new chain, that chain takes the
    /// place of the old one and the framebuffers are absent until the next
    /// frame builds them. Nothing else changes: not the stale flag, the live
    /// signal, the slot, the batch or the textures. The outcome is handed
    /// on.
    pub fn recreate_swapchain(
        &mut self,
        extent: [u32; 2],
        outcome: Result<usize, RecreateError>,
    ) -> (result: Result<(), RecreateError>)
        ensures
            final(self)@ == old(self)@.recreate_swapchain(extent, outcome),
            result == match outcome {
                Ok(_) => Ok::<(), RecreateError>(()),
                Err(e) => Err(e),
            },
            old(self)@.valid() && (old(self)@.phase is Idle || old(self)@.phase is Recreating) && (
            outcome is Ok || old(self)@.recreate_swapchain) ==> final(self)@.valid(),
    {
        self.dimensions = extent;
        match outcome {
            Ok(images) => {
                self.images = images;
                self.framebuffers = None;
                Ok(())
            },
            Err(e) => Err(e),
        }
    }

    /// Why a report on rebuilding cannot be taken now, if it cannot.
    pub fn recreated_refused(&self, outcome: Result<usize, RecreateError>) -> (refused: Option<
        FrameError,
    >)
        ensures
            refused == self@.recreated_refused(outcome),
    {
        match self.phase {
            Phase::Recreating => match outcome {
                Err(RecreateError::Other) => Some(FrameError::SwapchainCreation),
                _ => None,
            },
            _ => Some(FrameError::OutOfOrder),
        }
    }

    /// Takes the driver's report on rebuilding the image chain for a frame
    /// that was started on a stale surface. The chain is rebuilt as
    /// `recreate_swapchain` says. With a new chain the surface is current
    /// again and the framebuffers are planned for it; the driver acquires
    /// next. An unsupported extent skips the frame and leaves the surface
    /// stale.
    pub fn swapchain_recreated(
        &mut self,
        extent: [u32; 2],
        outcome: Result<usize, RecreateError>,
    ) -> (step: FrameStep)
        requires
            old(self)@.recreated_refused(outcome) is None,
        ensures
            final(self)@ == old(self)@.swapchain_recreated(extent, outcome).0,
            step == old(self)@.swapchain_recreated(extent, outcome).1,
            old(self)@.valid() ==> final(self)@.valid(),
    {
        match self.recreate_swapchain(extent, outcome) {
            Ok(()) => {
                self.recreate_swapchain = false;
                let rebuilt = self.await_image();
                FrameStep::AcquireImage { rebuilt }
            },
            Err(_) => {
                self.phase = Phase::Idle;
                FrameStep::Skip
            },
        }
    }

    /// Why a report on acquisition cannot be taken now, if it cannot.
    pub fn acquired_refused(&self, outcome: Result<(usize, u64), AcquireError>) -> (refused:
        Option<FrameError>)
        ensures
            refused == self@.acquired_refused(outcome),
    {
        match self.phase {
            Phase::Acquiring { .. } => {},
            _ => {
                return Some(FrameError::OutOfOrder);
            },
        }
        match outcome {
            Ok((image, _)) => match &self.framebuffers {
                Some(fbs) => if image < fbs.len() {
                    None
                } else {
                    Some(FrameError::ImageOutOfRange)
                },
                None => Some(FrameError::ImageOutOfRange),
            },
            Err(AcquireError::OutOfDate) => None,
            Err(AcquireError::Other) => Some(FrameError::Acquisition),
        }
    }

    /// Takes the driver's report on acquisition: the image and the handle of
    /// its availability, or that the chain is out of date. With an image the
    /// slot is stored, a batch is opened where none is pending, and the
    /// frame is under way. An out-of-date chain marks the surface stale and
    /// skips the frame.
    pub fn image_acquired(&mut self, outcome: Result<(usize, u64), AcquireError>) -> (step:
        FrameStep)
        requires
            old(self)@.acquired_refused(outcome) is None,
        ensures
            final(self)@ == old(self)@.image_acquired(outcome).0,
            step == old(self)@.image_acquired(outcome).1,
            old(self)@.valid() ==> final(self)@.valid(),
    {
        match outcome {
            Ok((image, available)) => {
                let resized = match self.phase {
                    Phase::Acquiring { resized } => resized,
                    _ => false,
                };
                let framebuffer = self.framebuffers.as_ref().unwrap()[image];
                self.slot = Some(
                    AcquiredSlot { image, framebuffer, available: Signal::pending(available) },
                );
                if self.command_buffer_builder.is_none() {
                    self.command_buffer_builder = Some(CommandBatch::new());
                }
                self.phase = Phase::Recording;
                FrameStep::Ready { resized }
            },
            Err(_) => {
                self.recreate_swapchain = true;
                self.phase = Phase::Idle;
                FrameStep::Skip
            },
        }
    }

    /// Lets `add_cmds` add to the pending batch, opening an empty one where
    /// none is pending, and keeps what it returns. Nothing else changes, and
    /// nothing reaches the GPU before the frame is committed.
    pub fn with_command_builder<F: FnOnce(CommandBatch) -> CommandBatch>(&mut self, add_cmds: F)
        requires
            forall|batch: CommandBatch|
                batch@ == old(self)@.recorded() ==> add_cmds.requires((batch,)),
        ensures
            exists|before: CommandBatch, after: CommandBatch|
                {
                    &&& before@ == old(self)@.recorded()
                    &&& add_cmds.ensures((before,), after)
                    &&& final(self)@ == (RendererState {
                        commands: Some(after@),
                        ..old(self)@
                    })
                },
            old(self)@.valid() ==> final(self)@.valid(),
    {
        let before = match self.command_buffer_builder.take() {
            Some(batch) => batch,
            None => CommandBatch::new(),
        };
        let ghost witness = before;
        let after = add_cmds(before);
        self.command_buffer_builder = Some(after);
        assert(add_cmds.ensures((witness,), after));
        assert(self@ == (RendererState { commands: Some(after@), ..old(self)@ }));
    }

    /// Why the render pass of the frame cannot be begun now, if it cannot:
    /// no image is acquired, or a pass is open already.
    pub fn begin_refused(&self) -> (refused: Option<FrameError>)
        ensures
            refused == self@.begin_refused(),
    {
        if self.slot.is_none() {
            return Some(FrameError::NoImageAcquired);
        }
        let open = match &self.command_buffer_builder {
            Some(batch) => batch.in_render_pass(),
            None => false,
        };
        if open {
            Some(FrameError::Batch(BatchError::ForbiddenInsideRenderPass))
        } else {
            None
        }
    }

    /// Begins the render pass of the frame, on the framebuffer of the
    /// acquired image and with the fixed clear values.
    pub fn begin_rendering(&mut self)
        requires
            old(self)@.begin_refused() is None,
        ensures
            final(self)@ == old(self)@.begin_rendering(),
            old(self)@.valid() ==> final(self)@.valid(),
    {
        let framebuffer = self.slot.as_ref().unwrap().framebuffer;
        let batch = match self.command_buffer_builder.take() {
            Some(batch) => batch,
            None => CommandBatch::new(),
        };
        let clear = ClearValues { color: CLEAR_COLOR, depth: CLEAR_DEPTH };
        // No pass is open, so the batch takes the command.
        let batch = batch.begin_render_pass(framebuffer, clear).unwrap();
        self.command_buffer_builder = Some(batch);
    }

    /// Why the frame cannot be committed now, if it cannot: no batch is
    /// pending, there is no completion signal, or no image is acquired.
    pub fn commit_refused(&self) -> (refused: Option<FrameError>)
        ensures
            refused == self@.commit_refused(),
    {
        if self.command_buffer_builder.is_none() {
            Some(FrameError::NoCommandBatch)
        } else if self.previous_frame_end.is_none() {
            Some(FrameError::NoCompletionSignal)
        } else if self.slot.is_none() {
            Some(FrameError::NoImageAcquired)
        } else {
            None
        }
    }

    /// Commits the frame: ends the render pass if one is open, seals the
    /// batch, and chains it after both the live completion signal and the
    /// availability of the acquired image. The result is what the driver
    /// submits and presents; it reports with `finish_frame`. Until then the
    /// live signal is the chain that the batch runs after.
    pub fn commit_rendering(&mut self) -> (submission: Submission)
        requires
            old(self)@.commit_refused() is None,
        ensures
            final(self)@ == old(self)@.committed(),
            submission.batch@ == old(self)@.sealed(),
            submission.image == old(self)@.slot->Some_0.image,
            submission.wait_for@ == old(self)@.chained().listed(),
            old(self)@.valid() ==> final(self)@.valid(),
    {
        let batch = self.command_buffer_builder.take().unwrap();
        let previous = self.previous_frame_end.take().unwrap();
        let slot = self.slot.take().unwrap();
        let closed = if batch.in_render_pass() {
            let ended = batch.end_render_pass().unwrap();
            assert(!pass_open(ended@)) by {
                assert(ended@.last() == Command::EndRenderPass);
            }
            ended
        } else {
            batch
        };
        let sealed = closed.build().unwrap();
        let chained = previous.join(slot.available);
        let wait_for = chained.pending_handles();
        self.previous_frame_end = Some(chained);
        self.phase = Phase::Presenting;
        Submission { batch: sealed, image: slot.image, wait_for }
    }

    /// Why a report on submission cannot be taken now, if it cannot: no
    /// frame was committed.
    pub fn finish_refused(&self) -> (refused: Option<FrameError>)
        ensures
            refused == self@.finish_refused(),
    {
        match self.phase {
            Phase::Presenting => if self.previous_frame_end.is_none() {
                Some(FrameError::NoCompletionSignal)
            } else {
                None
            },
            _ => Some(FrameError::OutOfOrder),
        }
    }

    /// Takes the driver's report on submission and ends the frame. With the
    /// handle of the submitted work, the live signal becomes that work
    /// chained after what the frame waited for. On failure the live signal
    /// becomes a satisfied one and what the frame waited for is handed back;
    /// an out-of-date chain also marks the surface stale, any other failure
    /// is to be logged.
    pub fn finish_frame(&mut self, outcome: Result<u64, FlushError>) -> (end: FrameEnd)
        requires
            old(self)@.finish_refused() is None,
        ensures
            final(self)@ == old(self)@.finish_frame(outcome),
            end == old(self)@.frame_end(outcome),
            old(self)@.valid() ==> final(self)@.valid(),
    {
        let chained = self.previous_frame_end.take().unwrap();
        self.phase = Phase::Idle;
        match outcome {
            Ok(work) => {
                self.previous_frame_end = Some(chained.then_execute(work));
                FrameEnd::Presented
            },
            Err(FlushError::OutOfDate) => {
                self.recreate_swapchain = true;
                self.previous_frame_end = Some(Signal::now());
                FrameEnd::Dropped { retired: chained }
            },
            Err(FlushError::Other) => {
                self.previous_frame_end = Some(Signal::now());
                FrameEnd::Failed { retired: chained }
            },
        }
    }

    /// The queue family that draws and presents.
    pub fn queue_family(&self) -> (family: usize)
        ensures
            family == self@.queue_family,
    {
        self.queue_family
    }

    /// The extent that the surface last reported.
    pub fn dimensions(&self) -> (dimensions: [u32; 2])
        ensures
            dimensions == self@.dimensions,
    {
        self.dimensions
    }

    /// The viewport to draw with: all of the surface at its last reported
    /// extent.
    pub fn viewport(&self) -> (viewport: Viewport)
        ensures
            viewport == viewport_of(self@.dimensions),
    {
        Viewport { origin: [0, 0], dimensions: self.dimensions, depth_range: [0, 255] }
    }

    /// The number of images in the chain.
    pub fn images(&self) -> (images: usize)
        ensures
            images == self@.images,
    {
        self.images
    }

    /// The framebuffers of the chain, if they are built.
    pub fn framebuffers(&self) -> (framebuffers: Option<&Vec<Framebuffer>>)
        ensures
            match framebuffers {
                Some(fbs) => self@.framebuffers == Some(fbs@),
                None => self@.framebuffers is None,
            },
    {
        self.framebuffers.as_ref()
    }

    /// Whether the surface is stale, so that the next frame rebuilds the
    /// image chain.
    pub fn needs_recreate(&self) -> (stale: bool)
        ensures
            stale == self@.recreate_swapchain,
    {
        self.recreate_swapchain
    }

    /// Where the renderer stands in the life of a frame.
    pub fn phase(&self) -> (phase: Phase)
        ensures
            phase == self@.phase,
    {
        self.phase
    }

    /// The image that the frame under way renders to.
    pub fn image_num(&self) -> (image: Option<usize>)
        ensures
            image == match self@.slot {
                Some(slot) => Some(slot.image),
                None => None,
            },
    {
        match &self.slot {
            Some(slot) => Some(slot.image),
            None => None,
        }
    }

    /// The live completion signal.
    pub fn previous_frame_end(&self) -> (signal: Option<&Signal>)
        ensures
            match signal {
                Some(s) => self@.previous_frame_end == Some(*s),
                None => self@.previous_frame_end is None,
            },
    {
        self.previous_frame_end.as_ref()
    }

    /// The number of commands in the pending batch, if one is pending.
    pub fn pending_commands(&self) -> (n: Option<usize>)
        ensures
            n == match self@.commands {
                Some(commands) => Some(commands.len() as usize),
                None => None,
            },
    {
        match &self.command_buffer_builder {
            Some(batch) => Some(batch.len()),
            None => None,
        }
    }

    /// The texture cached under `path`, if there is one.
    pub fn cached_texture(&self, path: &String) -> (entry: Option<TextureEntry>)
        ensures
            entry == if self@.textures.contains_key(path@) {
                Some(self@.textures[path@])
            } else {
                None
            },
    {
        self.texture_store.get(path)
    }

    /// Takes note of a texture that was uploaded for `path`: it is cached
    /// under the path, and the upload is joined into the live completion
    /// signal, so that no later frame reads the texture before it is whole.
    /// Where the path has a texture already, that one is kept and returned,
    /// and nothing changes.
    pub fn store_texture(&mut self, path: &String, loaded: Loaded) -> (entry: TextureEntry)
        ensures
            old(self)@.textures.contains_key(path@) ==> {
                &&& entry == old(self)@.textures[path@]
                &&& final(self)@ == old(self)@
            },
            !old(self)@.textures.contains_key(path@) ==> {
                &&& entry == loaded.entry
                &&& final(self)@ == old(self)@.with_texture(path@, loaded)
            },
            old(self)@.valid() ==> final(self)@.valid(),
    {
        match self.texture_store.get(path) {
            Some(entry) => entry,
            None => {
                let entry = self.texture_store.store(path, loaded.entry);
                self.join_upload(loaded.pending);
                entry
            },
        }
    }

    /// Joins the upload behind `pending` into the live completion signal.
    fn join_upload(&mut self, pending: u64)
        ensures
            final(self)@ == (RendererState {
                previous_frame_end: Some(
                    match old(self)@.previous_frame_end {
                        Some(signal) => signal.joined(Signal::Pending(pending)),
                        None => Signal::Pending(pending),
                    },
                ),
                ..old(self)@
            }),
    {
        let upload = Signal::pending(pending);
        let joined = match self.previous_frame_end.take() {
            Some(signal) => signal.join(upload),
            None => upload,
        };
        self.previous_frame_end = Some(joined);
    }

    /// The texture of `path` and its extent. A path that was loaded before
    /// is answered from the cache: the loader is not run and nothing
    /// changes. Else `loader` is run; the texture it made is cached under
    /// the path, and its upload is joined into the live completion signal.
    pub fn load_texture<F: FnOnce() -> Loaded>(&mut self, path: &String, loader: F) -> (entry:
        TextureEntry)
        requires
            !old(self)@.textures.contains_key(path@) ==> loader.requires(()),
        ensures
            old(self)@.textures.contains_key(path@) ==> {
                &&& entry == old(self)@.textures[path@]
                &&& final(self)@ == old(self)@
            },
            !old(self)@.textures.contains_key(path@) ==> exists|loaded: Loaded|
                {
                    &&& loader.ensures((), loaded)
                    &&& entry == loaded.entry
                    &&& final(self)@ == old(self)@.with_texture(path@, loaded)
                },
            old(self)@.valid() ==> final(self)@.valid(),
    {
        let (entry, pending) = self.texture_store.get_or_load(path, loader);
        match pending {
            Some(pending) => {
                self.join_upload(pending);
                assert(loader.ensures((), Loaded { entry, pending }));
                assert(self@ == old(self)@.with_texture(path@, Loaded { entry, pending }));
                entry
            },
            None => entry,
        }
    }
}

} // verus!
