//! What holds of the frame loop as a whole, proved from the single steps.

use vstd::prelude::*;
use crate::batch::{pass_open, Command};
use crate::signal::{lemma_pruned_handles, Signal};
use crate::texture::Loaded;
use crate::vk_renderer::{
    framebuffers_for, AcquireError, FlushError, FrameEnd, FrameStep, RecreateError,
    RendererState,
};

verus! {

/// What the driver reports in the course of one frame.
pub struct FrameReport {
    /// The handles seen to complete before the frame.
    pub finished: Seq<u64>,
    /// The extent of the surface, where the image chain is rebuilt.
    pub extent: [u32; 2],
    /// How rebuilding the image chain went, where it is rebuilt.
    pub recreated: Result<usize, RecreateError>,
    /// How acquisition went, where an image is acquired.
    pub acquired: Result<(usize, u64), AcquireError>,
    /// How submission went, where the frame is committed.
    pub flushed: Result<u64, FlushError>,
}

impl RendererState {
    /// The state after a frame was started and, where the surface was stale,
    /// the driver's report on rebuilding was taken.
    pub open spec fn prepared(self, report: FrameReport) -> RendererState {
        let started = self.start_next_frame(report.finished).0;
        if started.phase is Recreating {
            started.swapchain_recreated(report.extent, report.recreated).0
        } else {
            started
        }
    }

    /// The state in which a frame that was started leaves the renderer once
    /// the driver has done what it was asked: the chain is rebuilt where the
    /// surface was stale, and an image is acquired unless rebuilding skipped
    /// the frame.
    pub open spec fn begun(self, report: FrameReport) -> RendererState {
        let prepared = self.prepared(report);
        if prepared.phase is Acquiring {
            prepared.image_acquired(report.acquired).0
        } else {
            prepared
        }
    }

    /// The state after one whole frame: begun as above and, where an image
    /// was acquired, rendered to and committed, with the driver's report on
    /// the submission taken.
    pub open spec fn after_frame(self, report: FrameReport) -> RendererState {
        let begun = self.begun(report);
        if begun.phase is Recording {
            begun.begin_rendering().committed().finish_frame(report.flushed)
        } else {
            begun
        }
    }

    /// The state after the frames that `reports` tell of, one after the
    /// other.
    pub open spec fn after_frames(self, reports: Seq<FrameReport>) -> RendererState
        decreases reports.len(),
    {
        if reports.len() == 0 {
            self
        } else {
            self.after_frames(reports.drop_last()).after_frame(reports.last())
        }
    }

    /// Whether the driver's reports for a frame started in this state are
    /// ones that the steps take: rebuilding gave a chain or met an
    /// unsupported extent, and acquisition gave an image of the chain or
    /// found the chain out of date.
    pub open spec fn survives(self, report: FrameReport) -> bool {
        let started = self.start_next_frame(report.finished).0;
        &&& started.phase is Recreating ==> started.recreated_refused(report.recreated) is None
        &&& self.prepared(report).phase is Acquiring ==> self.prepared(report).acquired_refused(
            report.acquired,
        ) is None
    }

    /// Whether the pending batch is outside a render pass.
    pub open spec fn pass_closed(self) -> bool {
        !pass_open(self.recorded())
    }
}

/// Beginning the render pass leaves a pass open and nothing else in the way
/// of committing: a frame that can be committed before its pass is begun can
/// be committed after, and the committed batch ends with the end of the pass.
pub proof fn lemma_pass_open_after_begin(s: RendererState)
    requires
        s.begin_refused() is None,
    ensures
        pass_open(s.begin_rendering().recorded()),
        s.begin_rendering().slot == s.slot,
        s.begin_rendering().previous_frame_end == s.previous_frame_end,
        s.begin_rendering().sealed() == s.begin_rendering().recorded().push(
            Command::EndRenderPass,
        ),
        !pass_open(s.begin_rendering().sealed()),
{
    let rendering = s.begin_rendering();
    assert(rendering.recorded().last() is BeginRenderPass);
    assert(rendering.sealed().last() is EndRenderPass);
}

/// A frame that starts between frames, with reports that the steps take, is
/// never refused on its way, and ends between frames: the renderer is valid
/// and idle again, it holds a live completion signal, and no image slot or
/// batch is left over.
pub proof fn lemma_frame_returns_to_idle(s: RendererState, report: FrameReport)
    requires
        s.valid(),
        s.phase is Idle,
        s.pass_closed(),
        s.survives(report),
    ensures
        s.start_refused() is None,
        s.begun(report).phase is Recording ==> {
            &&& s.begun(report).begin_refused() is None
            &&& s.begun(report).begin_rendering().commit_refused() is None
            &&& s.begun(report).begin_rendering().committed().finish_refused() is None
        },
        s.after_frame(report).valid(),
        s.after_frame(report).phase is Idle,
        s.after_frame(report).previous_frame_end is Some,
        s.after_frame(report).slot is None,
        s.after_frame(report).pass_closed(),
{
    let prepared = s.prepared(report);
    assert(prepared.valid());
    let begun = s.begun(report);
    assert(begun.valid());
    assert(begun.recorded() == s.recorded());
    if begun.phase is Recording {
        lemma_pass_open_after_begin(begun);
    }
}

/// Over any number of frames made one after the other, each starting where
/// the one before ended, exactly one completion signal is live between
/// frames, provided every report is one that the steps take.
pub proof fn lemma_one_live_signal_between_frames(s: RendererState, reports: Seq<FrameReport>)
    requires
        s.valid(),
        s.phase is Idle,
        s.pass_closed(),
        forall|k: int|
            0 <= k < reports.len() ==> s.after_frames(#[trigger] reports.take(k)).survives(
                reports[k],
            ),
    ensures
        s.after_frames(reports).valid(),
        s.after_frames(reports).phase is Idle,
        s.after_frames(reports).pass_closed(),
        reports.len() > 0 ==> s.after_frames(reports).previous_frame_end is Some,
    decreases reports.len(),
{
    if reports.len() > 0 {
        let earlier = reports.drop_last();
        assert forall|k: int| 0 <= k < earlier.len() implies s.after_frames(
            #[trigger] earlier.take(k),
        ).survives(earlier[k]) by {
            assert(earlier.take(k) == reports.take(k));
        }
        lemma_one_live_signal_between_frames(s, earlier);
        assert(reports.take(reports.len() - 1) == earlier);
        lemma_frame_returns_to_idle(s.after_frames(earlier), reports.last());
    }
}

/// A committed frame replaces the completion signal once, and leaks
/// nothing. Until the frame is committed the live signal is the one that
/// starting the frame left. Committing chains it with the availability of
/// the acquired image. A submission that went through makes the new signal
/// that chain followed by the submitted work, so that every handle the old
/// signal waited for is waited for by the new one; a submission that failed
/// makes the new signal a satisfied one and hands the chain back.
pub proof fn lemma_signal_replaced_once(
    s: RendererState,
    image: usize,
    available: u64,
    flushed: Result<u64, FlushError>,
)
    requires
        s.valid(),
        s.pass_closed(),
        s.acquired_refused(Ok((image, available))) is None,
    ensures
        ({
            let before = s.previous_frame_end->Some_0;
            let acquired = s.image_acquired(Ok((image, available))).0;
            let rendering = acquired.begin_rendering();
            let committed = rendering.committed();
            let chain = before.joined(Signal::Pending(available));
            let ended = committed.finish_frame(flushed);
            &&& acquired.previous_frame_end == Some(before)
            &&& rendering.previous_frame_end == Some(before)
            &&& committed.previous_frame_end == Some(chain)
            &&& ended.previous_frame_end == Some(
                match flushed {
                    Ok(work) => chain.followed_by(work),
                    Err(_) => Signal::Ready,
                },
            )
            &&& flushed matches Ok(work) ==> forall|h: u64|
                before.handles().contains(h) || h == available || h == work
                    <==> #[trigger] ended.previous_frame_end->Some_0.handles().contains(h)
            &&& flushed is Err ==> match committed.frame_end(flushed) {
                FrameEnd::Presented => false,
                FrameEnd::Dropped { retired } => retired == chain,
                FrameEnd::Failed { retired } => retired == chain,
            }
        }),
{
    reveal_with_fuel(Signal::handles, 3);
}

/// A frame can be committed as soon as its image is acquired, whatever was
/// recorded and whether or not a render pass was begun: the commit is not
/// refused, the batch is what was recorded, with the pass ended if one is
/// open, and the live signal is replaced as for any other frame.
pub proof fn lemma_commit_right_after_acquisition(
    s: RendererState,
    image: usize,
    available: u64,
    work: u64,
)
    requires
        s.valid(),
        s.acquired_refused(Ok((image, available))) is None,
    ensures
        ({
            let acquired = s.image_acquired(Ok((image, available))).0;
            let ended = acquired.committed().finish_frame(Ok(work));
            &&& acquired.commit_refused() is None
            &&& !pass_open(acquired.sealed())
            &&& s.pass_closed() ==> acquired.sealed() == s.recorded()
            &&& acquired.committed().finish_refused() is None
            &&& ended.phase is Idle
            &&& ended.valid()
            &&& ended.previous_frame_end == Some(
                s.previous_frame_end->Some_0.joined(Signal::Pending(available)).followed_by(
                    work,
                ),
            )
        }),
{
    let acquired = s.image_acquired(Ok((image, available))).0;
    if pass_open(acquired.recorded()) {
        assert(acquired.sealed().last() is EndRenderPass);
    }
}

/// A frame whose submission fails ends all the same: the renderer is idle
/// again, the live signal is a satisfied one, and the surface is stale
/// exactly if it was before or the failure was an out-of-date chain.
pub proof fn lemma_failed_frame_ends(s: RendererState, e: FlushError)
    requires
        s.finish_refused() is None,
    ensures
        s.finish_frame(Err(e)).previous_frame_end == Some(Signal::Ready),
        s.finish_frame(Err(e)).phase is Idle,
        s.finish_frame(Err(e)).recreate_swapchain == (s.recreate_swapchain || e
            == FlushError::OutOfDate),
{
}

/// Polling only ever drops handles from the live signal: what is left after
/// a frame was started waits for the handles of the signal before that the
/// driver did not report as finished, and for no others.
pub proof fn lemma_polling_drops_only_finished(s: RendererState, finished: Seq<u64>)
    requires
        s.start_refused() is None,
        s.previous_frame_end is Some,
    ensures
        forall|h: u64|
            #![trigger s.previous_frame_end->Some_0.handles().contains(h)]
            s.start_next_frame(finished).0.previous_frame_end->Some_0.handles().contains(h) <==> (
            s.previous_frame_end->Some_0.handles().contains(h) && !finished.contains(h)),
{
    lemma_pruned_handles(s.previous_frame_end->Some_0, finished);
}

/// A resize notification between frames makes the next frame rebuild the
/// image chain and the framebuffers, once: the driver is asked to rebuild,
/// the framebuffers are planned for the new chain at the new extent, the
/// frame reports that it was resized, and the surface is current again, so
/// that the frame after it rebuilds nothing.
pub proof fn lemma_resize_rebuilds_once(
    s: RendererState,
    finished: Seq<u64>,
    extent: [u32; 2],
    images: usize,
    acquired: (usize, u64),
    work: u64,
)
    requires
        s.valid(),
        s.phase is Idle,
        s.pass_closed(),
        acquired.0 < images,
    ensures
        ({
            let notified = s.on_surface_invalidated();
            let started = notified.start_next_frame(finished);
            let rebuilt = started.0.swapchain_recreated(extent, Ok(images));
            let begun = rebuilt.0.image_acquired(Ok(acquired));
            let ended = begun.0.begin_rendering().committed().finish_frame(Ok(work));
            &&& started.1 == FrameStep::RecreateSwapchain
            &&& started.0.framebuffers == s.framebuffers
            &&& started.0.images == s.images
            &&& started.0.recreated_refused(Ok(images)) is None
            &&& rebuilt.1 == FrameStep::AcquireImage { rebuilt: true }
            &&& rebuilt.0.dimensions == extent
            &&& rebuilt.0.images == images
            &&& rebuilt.0.framebuffers == Some(framebuffers_for(images, extent))
            &&& !rebuilt.0.recreate_swapchain
            &&& rebuilt.0.acquired_refused(Ok(acquired)) is None
            &&& begun.1 == FrameStep::Ready { resized: true }
            &&& begun.0.framebuffers == rebuilt.0.framebuffers
            &&& ended.phase is Idle
            &&& same_chain(ended, rebuilt.0)
            &&& forall|next: Seq<u64>|
                #![trigger ended.start_next_frame(next)]
                {
                    &&& ended.start_next_frame(next).1 == FrameStep::AcquireImage {
                        rebuilt: false,
                    }
                    &&& same_chain(ended.start_next_frame(next).0, rebuilt.0)
                }
        }),
{
}

/// A resize notification rebuilds nothing by itself, whenever it arrives: it
/// sets the stale flag and leaves everything else as it was. While a frame is
/// under way, no frame can be started and no report on rebuilding is taken,
/// and the steps that follow leave the image chain, its extent and its
/// framebuffers alone whether or not the flag is set.
pub proof fn lemma_no_rebuild_mid_frame(
    s: RendererState,
    acquired: Result<(usize, u64), AcquireError>,
    flushed: Result<u64, FlushError>,
    rebuilt: Result<usize, RecreateError>,
)
    requires
        !(s.phase is Idle) && !(s.phase is Recreating),
    ensures
        s.on_surface_invalidated() == (RendererState { recreate_swapchain: true, ..s }),
        ({
            let n = s.on_surface_invalidated();
            &&& n.start_refused() is Some
            &&& n.recreated_refused(rebuilt) is Some
            &&& same_chain(n.image_acquired(acquired).0, s)
            &&& same_chain(n.begin_rendering(), s)
            &&& same_chain(n.committed(), s)
            &&& same_chain(n.finish_frame(flushed), s)
        }),
{
}

/// Whether two states hold the same image chain: its length, its extent and
/// its framebuffers.
pub open spec fn same_chain(a: RendererState, b: RendererState) -> bool {
    &&& a.images == b.images
    &&& a.dimensions == b.dimensions
    &&& a.framebuffers == b.framebuffers
}

/// A texture that was loaded is cached: once `loaded` is stored under
/// `path`, the path has that entry, so that asking for the path again is
/// answered from the cache with the same texture. Storing joins the upload
/// into the live signal and drops nothing from it.
pub proof fn lemma_loaded_texture_is_cached(s: RendererState, path: Seq<char>, loaded: Loaded)
    ensures
        s.with_texture(path, loaded).textures.contains_key(path),
        s.with_texture(path, loaded).textures[path] == loaded.entry,
        s.with_texture(path, loaded).previous_frame_end is Some,
        s.with_texture(path, loaded).previous_frame_end->Some_0.handles().contains(loaded.pending),
        s.previous_frame_end matches Some(before) ==> before.handles().subset_of(
            s.with_texture(path, loaded).previous_frame_end->Some_0.handles(),
        ),
{
    reveal_with_fuel(Signal::handles, 2);
}

} // verus!
