//! The frame orchestrator: the state machine that drives one render-loop
//! iteration — surface recreation, framebuffer rebuild, presentation-slot
//! acquisition, command-buffer layout, and submission chained on completion
//! tokens.
//!
//! The orchestrator owns no GPU handles. It decides; the unverified shell
//! around the library performs each decision against the real device and
//! feeds the outcome back in. Completion tokens model the in-flight future
//! that is replaced every iteration: every submission records the token it
//! waited on and the token it signals, so ordering across frames is a
//! property of the recorded chain.

use crate::dispatch::{ceil_div16, dispatch_groups, GroupCount};
use vstd::prelude::*;

verus! {

/// One recorded submission: the presentation slot it renders and presents,
/// the completion token its work waits on before it may begin, and the token
/// it signals when it finishes.
#[derive(Clone, Copy, Debug, PartialEq, Eq, Structural)]
pub struct Submission {
    pub image_index: usize,
    pub waits_on: u64,
    pub signals: u64,
}

/// A submission log is well formed when every entry signals a token strictly
/// newer than the one it waited on, and every entry waits on at least the
/// token signaled by the entry before it.
pub open spec fn chain_wf(log: Seq<Submission>) -> bool {
    &&& forall|i: int| 0 <= i < log.len() ==> #[trigger] log[i].signals > log[i].waits_on
    &&& forall|i: int| 0 < i < log.len() ==> #[trigger] log[i].waits_on >= log[i - 1].signals
}

/// The token that the most recent submission signals; zero before any
/// submission, standing for the already-complete startup state.
pub open spec fn last_token(log: Seq<Submission>) -> u64 {
    if log.len() == 0 {
        0
    } else {
        log.last().signals
    }
}

/// What the loop must do next, in the fixed priority of one iteration.
#[derive(Clone, Copy, Debug, PartialEq, Eq, Structural)]
pub enum Action {
    RecreateSurface,
    BuildFramebuffers,
    AcquireImage,
}

/// Outcome of asking the presentation surface for the next image.
#[derive(Clone, Copy, Debug, PartialEq, Eq, Structural)]
pub enum AcquireResult {
    Acquired { index: usize },
    OutOfDate,
    Fatal,
}

/// The orchestrator's verdict on an acquisition outcome.
#[derive(Clone, Copy, Debug, PartialEq, Eq, Structural)]
pub enum FrameStep {
    /// Record and submit a frame for this presentation slot.
    Render { index: usize },
    /// Abandon this iteration without submitting anything and retry.
    Skip,
    /// An unrecoverable surface error: the process must stop.
    Abort,
}

/// A window event as far as the orchestrator cares about it.
#[derive(Clone, Copy, Debug, PartialEq, Eq, Structural)]
pub enum LoopEvent {
    CloseRequested,
    Resized { width: u32, height: u32 },
    Other,
}

/// One entry of the command buffer recorded for a frame, in order.
#[derive(Clone, Copy, Debug, PartialEq, Eq, Structural)]
pub enum Cmd {
    /// Compute dispatch covering the extent in 16x16 tiles.
    Dispatch { groups: GroupCount },
    /// Upload newly queued overlay text into the glyph cache.
    UpdateTextCache,
    /// Begin the render pass on the acquired slot's framebuffer.
    BeginRenderPass { framebuffer_index: usize },
    /// Draw the screen-filling geometry sampling the shared image.
    DrawScene { viewport_width: u32, viewport_height: u32 },
    /// Draw the overlay text.
    DrawText,
    EndRenderPass,
}

/// The per-iteration state of the render loop.
pub struct Orchestrator {
    /// Current surface extent, in pixels.
    pub width: u32,
    pub height: u32,
    /// Number of presentation images in the current swapchain.
    pub image_count: usize,
    /// The surface no longer matches the window and must be recreated
    /// before anything is acquired from it.
    pub surface_dirty: bool,
    /// Whether a framebuffer set exists for the current swapchain; while
    /// absent it is never used.
    pub framebuffers_present: bool,
    /// Size of the framebuffer set, one per presentation image.
    pub framebuffer_count: usize,
    /// A close was requested; the loop ends after this iteration.
    pub done: bool,
    /// Every submission so far, oldest first.
    pub submissions: Vec<Submission>,
}

impl Orchestrator {
    /// The orchestrator is well formed: its submission chain is, and a
    /// present framebuffer set has one framebuffer per presentation image.
    pub open spec fn wf(self) -> bool {
        &&& chain_wf(self.submissions@)
        &&& self.framebuffers_present ==> self.framebuffer_count == self.image_count
    }

    /// The next duty of the loop: recreation outranks framebuffer rebuild,
    /// which outranks acquisition, so a dirty surface is never acquired from
    /// and an absent framebuffer set is never drawn into.
    pub open spec fn spec_next_action(self) -> Action {
        if self.surface_dirty {
            Action::RecreateSurface
        } else if !self.framebuffers_present {
            Action::BuildFramebuffers
        } else {
            Action::AcquireImage
        }
    }

    /// The state after a recreation attempt: success adopts the window's
    /// extent and the new image count, clears the dirty mark and invalidates
    /// the framebuffers; failure changes nothing, so the next iteration
    /// retries.
    pub open spec fn spec_recreated(
        self,
        success: bool,
        width: u32,
        height: u32,
        image_count: usize,
    ) -> Orchestrator {
        if success {
            Orchestrator {
                width,
                height,
                image_count,
                surface_dirty: false,
                framebuffers_present: false,
                ..self
            }
        } else {
            self
        }
    }

    /// The state after rebuilding the framebuffer set: one framebuffer per
    /// presentation image.
    pub open spec fn spec_rebuilt(self) -> Orchestrator {
        Orchestrator { framebuffers_present: true, framebuffer_count: self.image_count, ..self }
    }

    /// The state after a window event: a close request ends the loop, a
    /// resize marks the surface dirty, anything else is not the
    /// orchestrator's business.
    pub open spec fn spec_after_event(self, ev: LoopEvent) -> Orchestrator {
        match ev {
            LoopEvent::CloseRequested => Orchestrator { done: true, ..self },
            LoopEvent::Resized { .. } => Orchestrator { surface_dirty: true, ..self },
            LoopEvent::Other => self,
        }
    }

    /// A fresh orchestrator over a just-created surface: clean, with no
    /// framebuffers yet and nothing submitted.
    pub fn new(width: u32, height: u32, image_count: usize) -> (s: Orchestrator)
        ensures
            s.wf(),
            s.width == width,
            s.height == height,
            s.image_count == image_count,
            !s.surface_dirty,
            !s.framebuffers_present,
            s.framebuffer_count == 0,
            !s.done,
            s.submissions@ =~= Seq::<Submission>::empty(),
            s.spec_next_action() == Action::BuildFramebuffers,
    {
        Orchestrator {
            width,
            height,
            image_count,
            surface_dirty: false,
            framebuffers_present: false,
            framebuffer_count: 0,
            done: false,
            submissions: Vec::new(),
        }
    }

    /// What the loop must do next.
    pub fn next_action(&self) -> (a: Action)
        ensures
            a == self.spec_next_action(),
    {
        if self.surface_dirty {
            Action::RecreateSurface
        } else if !self.framebuffers_present {
            Action::BuildFramebuffers
        } else {
            Action::AcquireImage
        }
    }

    /// Adopts the outcome of a surface recreation attempt against the
    /// window's current drawable size.
    pub fn apply_recreate(&mut self, success: bool, width: u32, height: u32, image_count: usize)
        requires
            old(self).wf(),
        ensures
            final(self).wf(),
            *final(self) == old(self).spec_recreated(success, width, height, image_count),
    {
        if success {
            self.width = width;
            self.height = height;
            self.image_count = image_count;
            self.surface_dirty = false;
            self.framebuffers_present = false;
        }
    }

    /// Rebuilds the framebuffer set, one framebuffer per presentation image
    /// of the current, clean surface.
    pub fn rebuild_framebuffers(&mut self)
        requires
            old(self).wf(),
            old(self).spec_next_action() == Action::BuildFramebuffers,
        ensures
            final(self).wf(),
            *final(self) == old(self).spec_rebuilt(),
            final(self).spec_next_action() == Action::AcquireImage,
    {
        self.framebuffers_present = true;
        self.framebuffer_count = self.image_count;
    }

    /// Decides what an acquisition outcome means for this iteration: an
    /// out-of-date surface marks the state dirty and skips the rest of the
    /// frame with nothing submitted; a valid slot proceeds to rendering; any
    /// other failure, including a slot beyond the image count, aborts.
    pub fn handle_acquire(&mut self, r: AcquireResult) -> (step: FrameStep)
        requires
            old(self).wf(),
            old(self).spec_next_action() == Action::AcquireImage,
        ensures
            final(self).wf(),
            r is OutOfDate ==> step == FrameStep::Skip && *final(self) == (Orchestrator {
                surface_dirty: true,
                ..*old(self)
            }),
            r matches AcquireResult::Acquired { index } ==> ({
                &&& index < old(self).image_count ==> step == (FrameStep::Render { index })
                    && *final(self) == *old(self)
                &&& index >= old(self).image_count ==> step == FrameStep::Abort && *final(self)
                    == *old(self)
            }),
            r is Fatal ==> step == FrameStep::Abort && *final(self) == *old(self),
            final(self).submissions@ == old(self).submissions@,
    {
        match r {
            AcquireResult::Acquired { index } => {
                if index < self.image_count {
                    FrameStep::Render { index }
                } else {
                    FrameStep::Abort
                }
            }
            AcquireResult::OutOfDate => {
                self.surface_dirty = true;
                FrameStep::Skip
            }
            AcquireResult::Fatal => FrameStep::Abort,
        }
    }

    /// The command buffer for one frame, in the fixed order: compute
    /// dispatch sized to cover the extent, overlay cache update, render pass
    /// on the acquired slot's framebuffer, scene draw with the viewport set
    /// to the extent, overlay draw, end of pass.
    pub fn build_frame_commands(&self, image_index: usize) -> (cmds: Vec<Cmd>)
        requires
            self.wf(),
            self.spec_next_action() == Action::AcquireImage,
            image_index < self.image_count,
        ensures
            cmds@.len() == 6,
            cmds@[0] matches Cmd::Dispatch { groups } && groups.x as int == ceil_div16(
                self.width as int,
            ) && groups.y as int == ceil_div16(self.height as int) && groups.z == 1,
            cmds@[1] == Cmd::UpdateTextCache,
            cmds@[2] == (Cmd::BeginRenderPass { framebuffer_index: image_index }),
            cmds@[3] == (Cmd::DrawScene {
                viewport_width: self.width,
                viewport_height: self.height,
            }),
            cmds@[4] == Cmd::DrawText,
            cmds@[5] == Cmd::EndRenderPass,
    {
        let groups = dispatch_groups(self.width, self.height);
        let mut cmds: Vec<Cmd> = Vec::new();
        cmds.push(Cmd::Dispatch { groups });
        cmds.push(Cmd::UpdateTextCache);
        cmds.push(Cmd::BeginRenderPass { framebuffer_index: image_index });
        cmds.push(Cmd::DrawScene { viewport_width: self.width, viewport_height: self.height });
        cmds.push(Cmd::DrawText);
        cmds.push(Cmd::EndRenderPass);
        cmds
    }

    /// Records the submission for an acquired slot: the new work waits on
    /// the token signaled by the previous submission (as well as the slot's
    /// own readiness) and signals the next token, which replaces the stored
    /// in-flight completion.
    pub fn submit_frame(&mut self, image_index: usize) -> (token: u64)
        requires
            old(self).wf(),
            old(self).spec_next_action() == Action::AcquireImage,
            image_index < old(self).image_count,
            last_token(old(self).submissions@) < u64::MAX,
        ensures
            final(self).wf(),
            final(self).submissions@ == old(self).submissions@.push(
                Submission {
                    image_index,
                    waits_on: last_token(old(self).submissions@),
                    signals: (last_token(old(self).submissions@) + 1) as u64,
                },
            ),
            token == last_token(final(self).submissions@),
            final(self).width == old(self).width,
            final(self).height == old(self).height,
            final(self).image_count == old(self).image_count,
            final(self).surface_dirty == old(self).surface_dirty,
            final(self).framebuffers_present == old(self).framebuffers_present,
            final(self).framebuffer_count == old(self).framebuffer_count,
            final(self).done == old(self).done,
            final(self).spec_next_action() == Action::AcquireImage,
    {
        let previous: u64 = if self.submissions.len() == 0 {
            0
        } else {
            self.submissions[self.submissions.len() - 1].signals
        };
        let token: u64 = previous + 1;
        self.submissions.push(Submission { image_index, waits_on: previous, signals: token });
        token
    }

    /// Folds a window event into the state.
    pub fn handle_event(&mut self, ev: LoopEvent)
        requires
            old(self).wf(),
        ensures
            final(self).wf(),
            *final(self) == old(self).spec_after_event(ev),
    {
        match ev {
            LoopEvent::CloseRequested => {
                self.done = true;
            }
            LoopEvent::Resized { .. } => {
                self.surface_dirty = true;
            }
            LoopEvent::Other => {}
        }
    }
}

/// Frame ordering: in a well-formed submission chain, a frame's work — which
/// may begin only once the token it waits on is signaled — begins only after
/// the completion signaled by every earlier frame, the previous one in
/// particular.
pub proof fn lemma_frame_ordering(log: Seq<Submission>, j: int, k: int)
    requires
        chain_wf(log),
        0 <= j < k < log.len(),
    ensures
        log[k].waits_on >= log[j].signals,
    decreases k - j,
{
    if j < k - 1 {
        lemma_frame_ordering(log, j, k - 1);
    }
}

/// Completion tokens grow strictly along a well-formed chain: a later frame
/// signals a strictly later token, so no two submissions signal the same
/// one.
pub proof fn lemma_tokens_strictly_increase(log: Seq<Submission>, j: int, k: int)
    requires
        chain_wf(log),
        0 <= j < k < log.len(),
    ensures
        log[k].signals > log[j].signals,
{
    lemma_frame_ordering(log, j, k);
}

/// Surface recreation idempotence: recreating a second time with the same
/// window size changes nothing further. After the pair the framebuffers are
/// stale — invalidated exactly once — and exactly one rebuild readies the
/// state for acquisition.
pub proof fn lemma_recreate_idempotent(
    s: Orchestrator,
    width: u32,
    height: u32,
    image_count: usize,
)
    ensures
        ({
            let once = s.spec_recreated(true, width, height, image_count);
            let twice = once.spec_recreated(true, width, height, image_count);
            &&& twice == once
            &&& !once.framebuffers_present
            &&& once.spec_next_action() == Action::BuildFramebuffers
            &&& once.spec_rebuilt().spec_next_action() == Action::AcquireImage
        }),
{
}

/// A resize event leaves the surface dirty, and the next iteration must then
/// attempt recreation — never acquisition — before anything else.
pub proof fn lemma_resize_forces_recreation(s: Orchestrator, width: u32, height: u32)
    ensures
        s.spec_after_event(LoopEvent::Resized { width, height }).surface_dirty,
        s.spec_after_event(LoopEvent::Resized { width, height }).spec_next_action()
            == Action::RecreateSurface,
{
}

/// An absent framebuffer set is never acquired against: while it is absent
/// the loop's next action is recreation or rebuild, not acquisition.
pub proof fn lemma_absent_framebuffers_not_acquired(s: Orchestrator)
    requires
        !s.framebuffers_present,
    ensures
        s.spec_next_action() != Action::AcquireImage,
{
}

} // verus!
