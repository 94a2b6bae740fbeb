use vstd::prelude::*;

verus! {

/// Why the surface could not hand out its next texture.
#[derive(Clone, Copy, Debug, PartialEq, Eq, Structural)]
pub enum AcquireError {
    Timeout,
    Outdated,
    Lost,
    OutOfMemory,
    Other,
}

/// Which renderer opened a pass.
#[derive(Clone, Copy, Debug, PartialEq, Eq, Structural)]
pub enum PassOrigin {
    Application,
    Overlay,
}

/// What a pass does with the colour attachment when it starts.
#[derive(Clone, Copy, Debug, PartialEq, Eq, Structural)]
pub enum LoadOp {
    Clear,
    Load,
}

/// One render pass recorded into the frame's command buffer.
#[derive(Clone, Copy, Debug, PartialEq, Eq, Structural)]
pub struct PassRecord {
    pub origin: PassOrigin,
    pub load: LoadOp,
}

/// Where a frame stands in the acquire, record, submit, present transaction.
#[derive(Clone, Copy, Debug, PartialEq, Eq, Structural)]
pub enum FrameStage {
    /// Nothing done yet.
    Idle,
    /// Skipped because the window is minimized.
    Skipped,
    /// Waiting for the first texture request to answer.
    Acquiring,
    /// Waiting for the one retry after an outdated or lost surface.
    Retrying,
    /// A texture is held; the overlay frame is open and its widgets are
    /// being built.
    BuildingUi,
    /// The overlay's widgets are built; the application records its passes.
    Recording,
    /// The overlay pass is recorded; the command buffer awaits submission.
    OverlayRecorded,
    /// Submitted and presented.
    Presented,
    /// Aborted by an acquisition failure that cannot be recovered.
    Failed,
}

/// What happened since the last step, as the frame's driver reports it.
#[derive(Clone, Copy, Debug, PartialEq, Eq, Structural)]
pub enum FrameEvent {
    /// A redraw is due; `minimized` is the window's state.
    Begin { minimized: bool },
    /// The surface handed out a texture.
    Acquired,
    /// The surface refused a texture request.
    AcquireFailed(AcquireError),
    /// The overlay's widgets for the frame are built.
    UiBuilt,
    /// The application opens a render pass.
    AppPass,
    /// The application has finished its drawing for the frame.
    AppDone,
    /// The overlay has drawn into its pass.
    OverlayDone,
}

/// What the frame's driver must do next.
#[derive(Clone, Copy, Debug, PartialEq, Eq, Structural)]
pub enum FrameAction {
    /// Do nothing for this frame.
    Skip,
    /// Update the frame timing and request the next surface texture.
    Acquire,
    /// Reapply the current size to the surface, then request a texture again.
    ResizeThenAcquire,
    /// Reconfigure the surface in full, then request a texture again.
    ReconfigureThenAcquire,
    /// Open the command encoder, begin the overlay frame and let the
    /// application build its widgets.
    Record,
    /// Let the application record its drawing.
    RenderApp,
    /// Open a render pass on the frame's view with the given load operation.
    BeginPass(LoadOp),
    /// Submit the command buffer and present the texture.
    SubmitAndPresent,
    /// Give up: the surface failed in a way that cannot be recovered.
    Abort(AcquireError),
    /// The event does not apply in this stage; nothing changes.
    Ignore,
}

/// The per-frame pipeline: a state machine that the frame's driver steps with
/// the outcome of each outside operation.
pub struct FramePipeline {
    stage: FrameStage,
    /// Texture requests issued so far in this frame.
    acquires: u32,
    /// Presents issued so far in this frame.
    presents: u32,
    passes: Vec<PassRecord>,
}

/// The abstract state of a frame.
pub struct FrameView {
    pub stage: FrameStage,
    pub acquires: nat,
    pub presents: nat,
    pub passes: Seq<PassRecord>,
}

pub open spec fn app_pass() -> PassRecord {
    PassRecord { origin: PassOrigin::Application, load: LoadOp::Clear }
}

pub open spec fn overlay_pass() -> PassRecord {
    PassRecord { origin: PassOrigin::Overlay, load: LoadOp::Load }
}

/// The state of a frame before any event.
pub open spec fn idle_frame() -> FrameView {
    FrameView { stage: FrameStage::Idle, acquires: 0, presents: 0, passes: Seq::empty() }
}

/// The next state of a frame, and what its driver must do, for one event.
pub open spec fn frame_step(s: FrameView, e: FrameEvent) -> (FrameView, FrameAction) {
    match (s.stage, e) {
        (FrameStage::Idle, FrameEvent::Begin { minimized }) => if minimized {
            (FrameView { stage: FrameStage::Skipped, ..s }, FrameAction::Skip)
        } else {
            (FrameView { stage: FrameStage::Acquiring, acquires: s.acquires + 1, ..s }, FrameAction::Acquire)
        },
        (FrameStage::Acquiring, FrameEvent::Acquired) =>
            (FrameView { stage: FrameStage::BuildingUi, ..s }, FrameAction::Record),
        (FrameStage::Retrying, FrameEvent::Acquired) =>
            (FrameView { stage: FrameStage::BuildingUi, ..s }, FrameAction::Record),
        (FrameStage::BuildingUi, FrameEvent::UiBuilt) =>
            (FrameView { stage: FrameStage::Recording, ..s }, FrameAction::RenderApp),
        (FrameStage::Acquiring, FrameEvent::AcquireFailed(AcquireError::Outdated)) =>
            (FrameView { stage: FrameStage::Retrying, acquires: s.acquires + 1, ..s }, FrameAction::ResizeThenAcquire),
        (FrameStage::Acquiring, FrameEvent::AcquireFailed(AcquireError::Lost)) =>
            (FrameView { stage: FrameStage::Retrying, acquires: s.acquires + 1, ..s }, FrameAction::ReconfigureThenAcquire),
        (FrameStage::Acquiring, FrameEvent::AcquireFailed(err)) =>
            (FrameView { stage: FrameStage::Failed, ..s }, FrameAction::Abort(err)),
        (FrameStage::Retrying, FrameEvent::AcquireFailed(err)) =>
            (FrameView { stage: FrameStage::Failed, ..s }, FrameAction::Abort(err)),
        (FrameStage::Recording, FrameEvent::AppPass) =>
            (FrameView { passes: s.passes.push(app_pass()), ..s }, FrameAction::BeginPass(LoadOp::Clear)),
        (FrameStage::Recording, FrameEvent::AppDone) =>
            (FrameView { stage: FrameStage::OverlayRecorded, passes: s.passes.push(overlay_pass()), ..s },
                FrameAction::BeginPass(LoadOp::Load)),
        (FrameStage::OverlayRecorded, FrameEvent::OverlayDone) =>
            (FrameView { stage: FrameStage::Presented, presents: s.presents + 1, ..s }, FrameAction::SubmitAndPresent),
        _ => (s, FrameAction::Ignore),
    }
}

/// The state a frame reaches from `s` through `events`, in order.
pub open spec fn frame_run(s: FrameView, events: Seq<FrameEvent>) -> FrameView
    decreases events.len(),
{
    if events.len() == 0 {
        s
    } else {
        frame_run(frame_step(s, events[0]).0, events.drop_first())
    }
}

/// Passes are in composition order: every pass but the last is an
/// application pass that clears, and the last is either such a pass or the
/// overlay's, which loads what is already there.
pub open spec fn passes_in_order(p: Seq<PassRecord>) -> bool {
    &&& forall|i: int| 0 <= i < p.len() - 1 ==> #[trigger] p[i] == app_pass()
    &&& p.len() > 0 ==> (p.last() == app_pass() || p.last() == overlay_pass())
}

/// What holds of every state a frame reaches from the idle state.
pub open spec fn frame_inv(s: FrameView) -> bool {
    &&& passes_in_order(s.passes)
    &&& match s.stage {
        FrameStage::Recording => forall|i: int| 0 <= i < s.passes.len() ==> #[trigger] s.passes[i] == app_pass(),
        FrameStage::OverlayRecorded | FrameStage::Presented => s.passes.len() > 0 && s.passes.last() == overlay_pass(),
        _ => s.passes.len() == 0,
    }
    &&& (s.stage == FrameStage::Idle || s.stage == FrameStage::Skipped ==> s.acquires == 0 && s.presents == 0)
}

proof fn lemma_step_keeps_inv(s: FrameView, e: FrameEvent)
    requires
        frame_inv(s),
    ensures
        frame_inv(frame_step(s, e).0),
{
    let t = frame_step(s, e).0;
    if s.stage == FrameStage::Recording {
        match e {
            FrameEvent::AppPass => {
                assert(forall|i: int| 0 <= i < t.passes.len() ==> #[trigger] t.passes[i] == app_pass()) by {
                    assert forall|i: int| 0 <= i < t.passes.len() implies #[trigger] t.passes[i] == app_pass() by {
                        if i < s.passes.len() {
                            assert(t.passes[i] == s.passes[i]);
                        }
                    }
                }
            },
            FrameEvent::AppDone => {
                assert forall|i: int| 0 <= i < t.passes.len() - 1 implies #[trigger] t.passes[i] == app_pass() by {
                    assert(t.passes[i] == s.passes[i]);
                }
            },
            _ => {},
        }
    }
}

proof fn lemma_run_keeps_inv(s: FrameView, events: Seq<FrameEvent>)
    requires
        frame_inv(s),
    ensures
        frame_inv(frame_run(s, events)),
    decreases events.len(),
{
    if events.len() > 0 {
        lemma_step_keeps_inv(s, events[0]);
        lemma_run_keeps_inv(frame_step(s, events[0]).0, events.drop_first());
    }
}

/// Within one frame, whatever happens, no pass is recorded before the
/// overlay's widgets are built, the application's passes come strictly before
/// the overlay's, the overlay's pass loads rather than clears, so that no clear
/// of the application is ever drawn over by a later clear, and a presented
/// frame always holds the overlay's pass on top of the application's.
pub proof fn lemma_overlay_composited_last(events: Seq<FrameEvent>)
    ensures
        passes_in_order(frame_run(idle_frame(), events).passes),
        forall|i: int|
            0 <= i < frame_run(idle_frame(), events).passes.len()
                && (#[trigger] frame_run(idle_frame(), events).passes[i]).origin == PassOrigin::Overlay
                ==> i == frame_run(idle_frame(), events).passes.len() - 1
                && frame_run(idle_frame(), events).passes[i].load == LoadOp::Load,
        frame_run(idle_frame(), events).stage == FrameStage::Presented ==> frame_run(idle_frame(), events).passes.last()
            == overlay_pass(),
        frame_run(idle_frame(), events).stage == FrameStage::BuildingUi ==> frame_run(idle_frame(), events).passes.len()
            == 0,
{
    lemma_run_keeps_inv(idle_frame(), events);
    let p = frame_run(idle_frame(), events).passes;
    assert forall|i: int| 0 <= i < p.len() && (#[trigger] p[i]).origin == PassOrigin::Overlay implies i == p.len() - 1
        && p[i].load == LoadOp::Load by {
        if i < p.len() - 1 {
            assert(p[i] == app_pass());
        }
    }
}

/// A frame that begins on a minimized window never requests a texture and
/// never presents, whatever is reported to it afterwards.
pub proof fn lemma_minimized_frame_is_skipped(events: Seq<FrameEvent>)
    ensures
        frame_step(idle_frame(), FrameEvent::Begin { minimized: true }).1 == FrameAction::Skip,
        frame_run(idle_frame(), seq![FrameEvent::Begin { minimized: true }] + events).acquires == 0,
        frame_run(idle_frame(), seq![FrameEvent::Begin { minimized: true }] + events).presents == 0,
{
    let all = seq![FrameEvent::Begin { minimized: true }] + events;
    assert(all[0] == FrameEvent::Begin { minimized: true });
    assert(all.drop_first() =~= events);
    lemma_skipped_stays(frame_step(idle_frame(), all[0]).0, events);
}

proof fn lemma_skipped_stays(s: FrameView, events: Seq<FrameEvent>)
    requires
        s.stage == FrameStage::Skipped,
    ensures
        frame_run(s, events) == s,
    decreases events.len(),
{
    if events.len() > 0 {
        lemma_skipped_stays(frame_step(s, events[0]).0, events.drop_first());
    }
}

/// An outdated surface is answered by exactly one resize and retry: a texture
/// on the retry lets the frame record, after two requests in all, and a
/// second failure of any kind, another outdated one included, aborts it.
pub proof fn lemma_outdated_retries_once(e: AcquireError)
    ensures
        ({
            let begun = frame_step(idle_frame(), FrameEvent::Begin { minimized: false });
            let outdated = frame_step(begun.0, FrameEvent::AcquireFailed(AcquireError::Outdated));
            let retried = frame_step(outdated.0, FrameEvent::Acquired);
            let failed = frame_step(outdated.0, FrameEvent::AcquireFailed(e));
            &&& begun.1 == FrameAction::Acquire
            &&& outdated.1 == FrameAction::ResizeThenAcquire
            &&& retried.1 == FrameAction::Record
            &&& retried.0.stage == FrameStage::BuildingUi
            &&& retried.0.acquires == 2
            &&& failed.1 == FrameAction::Abort(e)
            &&& failed.0.stage == FrameStage::Failed
        }),
{
}

impl FramePipeline {
    pub closed spec fn view(&self) -> FrameView {
        FrameView {
            stage: self.stage,
            acquires: self.acquires as nat,
            presents: self.presents as nat,
            passes: self.passes@,
        }
    }

    /// At most two texture requests and one present happen in a frame.
    pub closed spec fn wf(&self) -> bool {
        &&& self.acquires <= 2
        &&& self.presents <= 1
        &&& (self.stage == FrameStage::Idle ==> self.acquires == 0)
        &&& (self.stage == FrameStage::Skipped ==> self.acquires == 0)
        &&& (self.stage == FrameStage::Acquiring ==> self.acquires <= 1)
        &&& (self.stage != FrameStage::Presented ==> self.presents == 0)
    }

    /// A frame before its first event.
    pub fn new() -> (r: FramePipeline)
        ensures
            r.view() == idle_frame(),
            r.wf(),
    {
        FramePipeline { stage: FrameStage::Idle, acquires: 0, presents: 0, passes: Vec::new() }
    }

    /// Where the frame stands.
    pub fn stage(&self) -> (r: FrameStage)
        ensures
            r == self.view().stage,
    {
        self.stage
    }

    /// Texture requests issued so far in this frame.
    pub fn acquires(&self) -> (r: u32)
        ensures
            r == self.view().acquires,
    {
        self.acquires
    }

    /// Presents issued so far in this frame.
    pub fn presents(&self) -> (r: u32)
        ensures
            r == self.view().presents,
    {
        self.presents
    }

    /// The passes recorded so far, in order.
    pub fn passes(&self) -> (r: Vec<PassRecord>)
        ensures
            r@ == self.view().passes,
    {
        self.passes.clone()
    }

    /// Advances the frame by one event and says what to do next.
    pub fn step(&mut self, event: FrameEvent) -> (action: FrameAction)
        requires
            old(self).wf(),
        ensures
            final(self).wf(),
            (final(self).view(), action) == frame_step(old(self).view(), event),
    {
        match (self.stage, event) {
            (FrameStage::Idle, FrameEvent::Begin { minimized }) => {
                if minimized {
                    self.stage = FrameStage::Skipped;
                    FrameAction::Skip
                } else {
                    self.stage = FrameStage::Acquiring;
                    self.acquires = self.acquires + 1;
                    FrameAction::Acquire
                }
            },
            (FrameStage::Acquiring, FrameEvent::Acquired) | (FrameStage::Retrying, FrameEvent::Acquired) => {
                self.stage = FrameStage::BuildingUi;
                FrameAction::Record
            },
            (FrameStage::BuildingUi, FrameEvent::UiBuilt) => {
                self.stage = FrameStage::Recording;
                FrameAction::RenderApp
            },
            (FrameStage::Acquiring, FrameEvent::AcquireFailed(AcquireError::Outdated)) => {
                self.stage = FrameStage::Retrying;
                self.acquires = self.acquires + 1;
                FrameAction::ResizeThenAcquire
            },
            (FrameStage::Acquiring, FrameEvent::AcquireFailed(AcquireError::Lost)) => {
                self.stage = FrameStage::Retrying;
                self.acquires = self.acquires + 1;
                FrameAction::ReconfigureThenAcquire
            },
            (FrameStage::Acquiring, FrameEvent::AcquireFailed(err)) | (FrameStage::Retrying, FrameEvent::AcquireFailed(err)) => {
                self.stage = FrameStage::Failed;
                FrameAction::Abort(err)
            },
            (FrameStage::Recording, FrameEvent::AppPass) => {
                self.passes.push(PassRecord { origin: PassOrigin::Application, load: LoadOp::Clear });
                FrameAction::BeginPass(LoadOp::Clear)
            },
            (FrameStage::Recording, FrameEvent::AppDone) => {
                self.passes.push(PassRecord { origin: PassOrigin::Overlay, load: LoadOp::Load });
                self.stage = FrameStage::OverlayRecorded;
                FrameAction::BeginPass(LoadOp::Load)
            },
            (FrameStage::OverlayRecorded, FrameEvent::OverlayDone) => {
                self.stage = FrameStage::Presented;
                self.presents = self.presents + 1;
                FrameAction::SubmitAndPresent
            },
            _ => FrameAction::Ignore,
        }
    }
}

} // verus!
