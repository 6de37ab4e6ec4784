//! The frame loop state machine.
//!
//! One iteration of the embedder's control loop runs: wait for an event,
//! dispatch it to the active scene strategy, decide from the strategy's
//! answer whether to rebuild and resubmit the scene, composite, and present.
//! This module holds the decisions of that loop as transitions of an explicit
//! state machine; the caller performs each returned [`Directive`] (run the
//! strategy, submit the scene, composite, present, tear down) and reports
//! back, so the renderer, surface and input plumbing stay outside the
//! library.
//!
//! A close request or the designated quit key moves the machine to
//! `ShuttingDown`, skipping the remaining composition and presentation of
//! that iteration. High-frequency motion events whose dispatch reports no
//! visible change return the machine to `Idle` without a single renderer
//! call, so fast pointer movement cannot saturate the loop with redundant
//! presents. Every iteration that reaches `Compositing` proceeds through
//! `Presenting`. The scene epoch grows by exactly one per rebuild and is
//! threaded into the submission, so the renderer can discard stale in-flight
//! frames.

use vstd::prelude::*;

verus! {

/// One input event, as the windowing layer reports it.
#[derive(Clone, Copy, PartialEq, Eq, Structural, Debug)]
pub enum Event {
    /// The window was asked to close.
    CloseRequested,
    /// A key went down, identified by its key code.
    KeyDown(u32),
    /// A key went up, identified by its key code.
    KeyUp(u32),
    /// The pointer moved.
    PointerMove,
    /// An analog axis moved.
    AxisMotion,
    /// Any other event.
    Other,
}

impl Event {
    /// A close request, or the designated quit key going down: the loop shuts
    /// down on these.
    pub open spec fn is_quit(&self, quit_key: u32) -> bool {
        ||| *self is CloseRequested
        ||| (*self matches Event::KeyDown(k) && k == quit_key)
    }

    /// A high-frequency motion event: dispatched, but never forcing a GPU
    /// frame unless the strategy reports a visible change.
    pub open spec fn is_motion(&self) -> bool {
        *self is PointerMove || *self is AxisMotion
    }
}

/// Where the loop stands within one iteration.
#[derive(Clone, Copy, PartialEq, Eq, Structural, Debug)]
pub enum LoopState {
    /// Waiting for the next event or wake.
    Idle,
    /// One event is being routed to the scene strategy; `motion` records
    /// whether it was a high-frequency motion event.
    Dispatching { motion: bool },
    /// The strategy asked for a rebuild: a new scene is being produced and
    /// submitted under a freshly incremented epoch.
    Rebuilding,
    /// The framebuffer is being bound, cleared and rendered.
    Compositing,
    /// The surface is being presented.
    Presenting,
    /// Terminal: the renderer and surface are being torn down.
    ShuttingDown,
}

/// What the caller must do next after a transition.
#[derive(Clone, Copy, PartialEq, Eq, Structural, Debug)]
pub enum Directive {
    /// Dispatch the event to the scene strategy and report its answer.
    RunStrategy,
    /// Build a new scene and submit it to the renderer under this epoch.
    SubmitScene { epoch: u64 },
    /// Bind the framebuffer, clear, and ask the renderer to render.
    Composite,
    /// Present (swap) the surface.
    Present,
    /// Block until the next event or wake.
    WaitForEvent,
    /// Tear down the renderer and release the surface, exactly once.
    Deinit,
}

/// The frame state owned by the loop for the process lifetime: the current
/// position within an iteration, the epoch of the most recently submitted
/// scene, the dirty flag the strategy's answer sets, and the quit key.
#[derive(Clone, Copy, PartialEq, Eq, Structural, Debug)]
pub struct FrameLoop {
    /// Where the loop stands.
    pub state: LoopState,
    /// Monotonically increasing version tag of the most recently submitted
    /// scene.
    pub epoch: u64,
    /// Set when the strategy asks for a rebuild; cleared once the new scene
    /// is resubmitted.
    pub scene_dirty: bool,
    /// The key code whose key-down is an escape-equivalent quit request.
    pub quit_key: u32,
}

/// The transition a rebuild makes: the epoch grows by exactly one, the dirty
/// flag is set, and the submission carries the new epoch.
pub open spec fn rebuild_transition(pre: FrameLoop, post: FrameLoop, d: Directive) -> bool {
    &&& pre.state is Dispatching
    &&& post == (FrameLoop {
        state: LoopState::Rebuilding,
        epoch: (pre.epoch + 1) as u64,
        scene_dirty: true,
        quit_key: pre.quit_key,
    })
    &&& d == (Directive::SubmitScene { epoch: (pre.epoch + 1) as u64 })
}

/// A step, or any chain of steps, that leaves the epoch as it was: every
/// transition but a rebuild.
pub open spec fn epoch_preserving(pre: FrameLoop, post: FrameLoop) -> bool {
    post.epoch == pre.epoch
}

/// Two consecutive rebuilds submit strictly increasing epochs, however many
/// epoch-preserving transitions (submission, composition, presentation,
/// dispatch) run between them — even if no render of the first scene has
/// completed, the renderer can tell the second submission is newer.
pub proof fn lemma_second_rebuild_epoch_strictly_greater(
    s0: FrameLoop,
    s1: FrameLoop,
    s2: FrameLoop,
    s3: FrameLoop,
    d1: Directive,
    d2: Directive,
)
    requires
        s0.epoch < u64::MAX,
        s2.epoch < u64::MAX,
        rebuild_transition(s0, s1, d1),
        epoch_preserving(s1, s2),
        rebuild_transition(s2, s3, d2),
    ensures
        d1 matches Directive::SubmitScene { epoch: e1 } && d2 matches Directive::SubmitScene {
            epoch: e2,
        } && e2 > e1,
{
}

impl FrameLoop {
    /// The dirty flag stands exactly while a rebuild is in flight.
    pub open spec fn wf(&self) -> bool {
        self.scene_dirty <==> self.state is Rebuilding
    }

    /// A fresh loop: idle, with no scene submitted yet and a clean flag.
    pub fn new(quit_key: u32) -> (fl: FrameLoop)
        ensures
            fl == (FrameLoop {
                state: LoopState::Idle,
                epoch: 0u64,
                scene_dirty: false,
                quit_key,
            }),
            fl.wf(),
    {
        FrameLoop { state: LoopState::Idle, epoch: 0, scene_dirty: false, quit_key }
    }

    /// The one submission made before any event is handled: the startup scene
    /// goes to the renderer under the initial epoch, and the loop stays idle
    /// waiting for its first event.
    pub fn initial_scene(&mut self) -> (d: Directive)
        requires
            old(self).wf(),
            old(self).state is Idle,
            old(self).epoch == 0,
        ensures
            *final(self) == *old(self),
            d == (Directive::SubmitScene { epoch: 0u64 }),
    {
        Directive::SubmitScene { epoch: 0 }
    }

    /// An event arrived. A close request or the quit key going down moves
    /// straight to `ShuttingDown` from any state — the caller tears down
    /// exactly once and composites and presents nothing more for that
    /// iteration. Any other event arrives while idle and is routed to the
    /// scene strategy.
    pub fn handle_event(&mut self, event: &Event) -> (d: Directive)
        requires
            old(self).wf(),
            old(self).state is Idle || (event.is_quit(old(self).quit_key) && !(old(self).state
                is ShuttingDown)),
        ensures
            final(self).wf(),
            final(self).epoch == old(self).epoch,
            final(self).quit_key == old(self).quit_key,
            event.is_quit(old(self).quit_key) ==> final(self).state is ShuttingDown && d
                is Deinit,
            !event.is_quit(old(self).quit_key) ==> final(self).state == (LoopState::Dispatching {
                motion: event.is_motion(),
            }) && d is RunStrategy,
    {
        let quit = match event {
            Event::CloseRequested => true,
            Event::KeyDown(k) => *k == self.quit_key,
            _ => false,
        };
        if quit {
            self.scene_dirty = false;
            self.state = LoopState::ShuttingDown;
            Directive::Deinit
        } else {
            let motion = match event {
                Event::PointerMove => true,
                Event::AxisMotion => true,
                _ => false,
            };
            self.state = LoopState::Dispatching { motion };
            Directive::RunStrategy
        }
    }

    /// The strategy answered whether the dispatched event changed visible
    /// state. A rebuild request increments the epoch — exactly once — and
    /// asks for a submission under it. A motion event that changed nothing
    /// returns to `Idle` with no renderer call at all. Any other event
    /// proceeds to composition even without a rebuild.
    pub fn decide(&mut self, rebuild_needed: bool) -> (d: Directive)
        requires
            old(self).wf(),
            old(self).state is Dispatching,
            rebuild_needed ==> old(self).epoch < u64::MAX,
        ensures
            final(self).wf(),
            final(self).quit_key == old(self).quit_key,
            rebuild_needed ==> rebuild_transition(*old(self), *final(self), d),
            !rebuild_needed && old(self).state->motion ==> epoch_preserving(
                *old(self),
                *final(self),
            ) && final(self).state is Idle && d is WaitForEvent,
            !rebuild_needed && !old(self).state->motion ==> epoch_preserving(
                *old(self),
                *final(self),
            ) && final(self).state is Compositing && d is Composite,
    {
        if rebuild_needed {
            self.epoch = self.epoch + 1;
            self.scene_dirty = true;
            self.state = LoopState::Rebuilding;
            Directive::SubmitScene { epoch: self.epoch }
        } else {
            let motion = match self.state {
                LoopState::Dispatching { motion } => motion,
                _ => false,
            };
            if motion {
                self.state = LoopState::Idle;
                Directive::WaitForEvent
            } else {
                self.state = LoopState::Compositing;
                Directive::Composite
            }
        }
    }

    /// The rebuilt scene went to the renderer: the dirty flag is cleared and
    /// the iteration proceeds to composition.
    pub fn scene_submitted(&mut self) -> (d: Directive)
        requires
            old(self).wf(),
            old(self).state is Rebuilding,
        ensures
            final(self).wf(),
            epoch_preserving(*old(self), *final(self)),
            final(self).quit_key == old(self).quit_key,
            final(self).state is Compositing,
            !final(self).scene_dirty,
            d is Composite,
    {
        self.scene_dirty = false;
        self.state = LoopState::Compositing;
        Directive::Composite
    }

    /// Composition ran: every iteration that composites also presents, even
    /// if rendering changed nothing visible.
    pub fn composited(&mut self) -> (d: Directive)
        requires
            old(self).wf(),
            old(self).state is Compositing,
        ensures
            final(self).wf(),
            epoch_preserving(*old(self), *final(self)),
            final(self).quit_key == old(self).quit_key,
            final(self).state is Presenting,
            d is Present,
    {
        self.state = LoopState::Presenting;
        Directive::Present
    }

    /// The surface was presented — or presentation failed, which is logged
    /// and non-fatal — and the loop waits for its next event.
    pub fn presented(&mut self) -> (d: Directive)
        requires
            old(self).wf(),
            old(self).state is Presenting,
        ensures
            final(self).wf(),
            epoch_preserving(*old(self), *final(self)),
            final(self).quit_key == old(self).quit_key,
            final(self).state is Idle,
            d is WaitForEvent,
    {
        self.state = LoopState::Idle;
        Directive::WaitForEvent
    }

    /// A transient per-frame failure — the GL context could not be made
    /// current, or the window's current size could not be queried — skips the
    /// rest of the iteration. Nothing stale is carried forward: the next
    /// iteration recomputes its state afresh.
    pub fn skip_frame(&mut self) -> (d: Directive)
        requires
            old(self).wf(),
            old(self).state is Compositing || old(self).state is Presenting,
        ensures
            final(self).wf(),
            epoch_preserving(*old(self), *final(self)),
            final(self).quit_key == old(self).quit_key,
            final(self).state is Idle,
            d is WaitForEvent,
    {
        self.state = LoopState::Idle;
        Directive::WaitForEvent
    }
}

} // verus!
