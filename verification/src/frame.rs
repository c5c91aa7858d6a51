//! The passes of one frame and the order in which they are recorded.
//!
//! All passes of a frame go into one command encoder, which can have one
//! pass open at a time. A [`FrameCompositor`] hands the passes out one by
//! one, the next only when the one before has ended, and lets the encoder
//! be submitted only when all of them have been recorded.
use crate::geometry::{PhysicalSize, Viewport};
use crate::pipeline::{PipelineId, QUAD_VERTICES};
use crate::surface::SurfaceError;
use crate::window_texture::TextureView;
use vstd::prelude::*;

verus! {

/// What a pass draws to.
#[derive(Clone, Copy, Debug, PartialEq, Eq, Structural)]
pub enum Attachment {
    /// One of the two textures of the off-screen mirror.
    Texture(TextureView),
    /// The frame that was acquired from the surface.
    Surface,
}

/// A colour; each channel is a double-precision pattern.
#[derive(Clone, Copy, Debug, PartialEq, Eq, Structural)]
pub struct Color {
    pub r: u64,
    pub g: u64,
    pub b: u64,
    pub a: u64,
}

/// What a pass does with its attachment before it draws.
#[derive(Clone, Copy, Debug, PartialEq, Eq, Structural)]
pub enum LoadOp {
    Clear(Color),
    Load,
}

/// What a pass draws.
#[derive(Clone, Copy, Debug, PartialEq, Eq, Structural)]
pub enum Draw {
    /// What the user-interface layer has to draw.
    Ui,
    /// The full-screen quad, with a pipeline and its bind group at index 0.
    Quad { pipeline: PipelineId, vertices: u32, instances: u32 },
}

/// A render pass. What it draws is always stored.
#[derive(Clone, Copy, Debug, PartialEq, Eq, Structural)]
pub struct RenderPass {
    pub target: Attachment,
    pub load: LoadOp,
    pub store: bool,
    /// The viewport to set; `None` leaves the whole attachment.
    pub viewport: Option<Viewport>,
    pub draw: Draw,
}

impl Color {
    /// Transparent black: every channel is zero.
    pub open spec fn transparent() -> Color {
        Color { r: 0, g: 0, b: 0, a: 0 }
    }
}

/// The full-screen quad drawn once with a pipeline.
pub open spec fn quad(pipeline: PipelineId) -> Draw {
    Draw::Quad { pipeline, vertices: QUAD_VERTICES, instances: 1 }
}

/// The pass of the user-interface layer: over what the front texture holds.
pub open spec fn ui_pass() -> RenderPass {
    RenderPass {
        target: Attachment::Texture(TextureView::Front),
        load: LoadOp::Load,
        store: true,
        viewport: None,
        draw: Draw::Ui,
    }
}

/// The blur pass: the front texture, blurred, into the cleared back texture.
/// The quad covers the whole target; the viewport alone confines what is
/// drawn to the selection.
pub open spec fn blur_pass(region: Viewport) -> RenderPass {
    RenderPass {
        target: Attachment::Texture(TextureView::Back),
        load: LoadOp::Clear(Color::transparent()),
        store: true,
        viewport: Some(region),
        draw: quad(PipelineId::BlurRect),
    }
}

/// The pass that copies the back texture over the front texture.
pub open spec fn copy_back_pass(size: PhysicalSize) -> RenderPass {
    RenderPass {
        target: Attachment::Texture(TextureView::Front),
        load: LoadOp::Load,
        store: true,
        viewport: Some(Viewport { x: 0, y: 0, width: size.width, height: size.height }),
        draw: quad(PipelineId::CopyBack),
    }
}

/// The pass that copies the front texture to the acquired frame.
pub open spec fn present_pass() -> RenderPass {
    RenderPass {
        target: Attachment::Surface,
        load: LoadOp::Load,
        store: true,
        viewport: None,
        draw: quad(PipelineId::Copy),
    }
}

/// The two passes that blur a region of a target of the given size, or none
/// where there is no region.
pub open spec fn blur_passes(region: Option<Viewport>, size: PhysicalSize) -> Seq<RenderPass> {
    match region {
        Some(v) => seq![blur_pass(v), copy_back_pass(size)],
        None => Seq::empty(),
    }
}

/// The passes of a frame in their order: the user interface, the blur and
/// the copy back where the selection covers a region, the presentation.
pub open spec fn frame_passes(region: Option<Viewport>, size: PhysicalSize) -> Seq<RenderPass> {
    seq![ui_pass()] + blur_passes(region, size) + seq![present_pass()]
}

/// How far the recording of a frame has come.
#[derive(Clone, Copy, Debug, PartialEq, Eq, Structural)]
pub enum FrameState {
    Idle,
    FrameAcquired,
    UiPassDone,
    BlurPassDone,
    BackCopyDone,
    PresentPassDone,
    Submitted,
}

/// What has happened outside.
#[derive(Clone, Copy, Debug, PartialEq, Eq, Structural)]
pub enum FrameEvent {
    /// The frame has been acquired from the surface.
    Acquired,
    /// The surface gave no frame.
    AcquireFailed(SurfaceError),
    /// The pass that was handed out has been recorded and has ended.
    PassEnded,
    /// The command buffer has been submitted.
    Submitted,
    /// Something went wrong.
    Failed,
}

/// What is to be done outside.
#[derive(Clone, Copy, Debug, PartialEq, Eq, Structural)]
pub enum FrameAction {
    /// Acquire the frame from the surface.
    Acquire,
    /// Begin this pass, record it and end it.
    Record(RenderPass),
    /// Finish the encoder and submit its command buffer.
    Submit,
    /// Present the acquired frame.
    Present,
    /// No frame was acquired: nothing is recorded.
    Abort(SurfaceError),
    /// Drop the encoder with what was recorded; nothing is submitted.
    Discard,
    /// The frame has been submitted; nothing more is recorded.
    Finished,
}

/// The recording of a frame as contracts speak of it.
pub struct FrameView {
    pub state: FrameState,
    pub region: Option<Viewport>,
    pub size: PhysicalSize,
}

impl FrameState {
    /// How many steps the state lies behind `Idle`.
    pub open spec fn rank(self) -> nat {
        match self {
            FrameState::Idle => 0,
            FrameState::FrameAcquired => 1,
            FrameState::UiPassDone => 2,
            FrameState::BlurPassDone => 3,
            FrameState::BackCopyDone => 4,
            FrameState::PresentPassDone => 5,
            FrameState::Submitted => 6,
        }
    }

    /// The state that follows when what is pending in this state is done;
    /// `blur` says whether the selection covers a region.
    pub open spec fn successor(self, blur: bool) -> FrameState {
        match self {
            FrameState::Idle => FrameState::FrameAcquired,
            FrameState::FrameAcquired => FrameState::UiPassDone,
            FrameState::UiPassDone => if blur {
                FrameState::BlurPassDone
            } else {
                FrameState::PresentPassDone
            },
            FrameState::BlurPassDone => FrameState::BackCopyDone,
            FrameState::BackCopyDone => FrameState::PresentPassDone,
            FrameState::PresentPassDone => FrameState::Submitted,
            FrameState::Submitted => FrameState::Submitted,
        }
    }
}

impl FrameView {
    /// A blur is under way only where there is a region to blur.
    pub open spec fn is_in_order(self) -> bool {
        (self.state == FrameState::BlurPassDone || self.state == FrameState::BackCopyDone)
            ==> self.region is Some
    }

    /// The passes that have been recorded and have ended, in their order.
    pub open spec fn passes(self) -> Seq<RenderPass> {
        match self.state {
            FrameState::Idle => Seq::empty(),
            FrameState::FrameAcquired => Seq::empty(),
            FrameState::UiPassDone => seq![ui_pass()],
            FrameState::BlurPassDone => seq![ui_pass(), blur_pass(self.region->0)],
            FrameState::BackCopyDone => seq![
                ui_pass(),
                blur_pass(self.region->0),
                copy_back_pass(self.size),
            ],
            FrameState::PresentPassDone => frame_passes(self.region, self.size),
            FrameState::Submitted => frame_passes(self.region, self.size),
        }
    }

    /// What is pending in the frame's state.
    pub open spec fn pending(self) -> FrameAction {
        match self.state {
            FrameState::Idle => FrameAction::Acquire,
            FrameState::FrameAcquired => FrameAction::Record(ui_pass()),
            FrameState::UiPassDone => match self.region {
                Some(v) => FrameAction::Record(blur_pass(v)),
                None => FrameAction::Record(present_pass()),
            },
            FrameState::BlurPassDone => FrameAction::Record(copy_back_pass(self.size)),
            FrameState::BackCopyDone => FrameAction::Record(present_pass()),
            FrameState::PresentPassDone => FrameAction::Submit,
            FrameState::Submitted => FrameAction::Present,
        }
    }

    /// The event says that what is pending has been done.
    pub open spec fn completes(self, event: FrameEvent) -> bool {
        match self.pending() {
            FrameAction::Acquire => event == FrameEvent::Acquired,
            FrameAction::Record(_) => event == FrameEvent::PassEnded,
            FrameAction::Submit => event == FrameEvent::Submitted,
            _ => false,
        }
    }

    /// The frame after an event.
    pub open spec fn after(self, event: FrameEvent) -> FrameView {
        if self.state == FrameState::Submitted {
            self
        } else if self.completes(event) {
            FrameView { state: self.state.successor(self.region is Some), ..self }
        } else {
            FrameView { state: FrameState::Idle, ..self }
        }
    }

    /// What is to be done after an event.
    pub open spec fn action_on(self, event: FrameEvent) -> FrameAction {
        if self.state == FrameState::Submitted {
            FrameAction::Finished
        } else if self.completes(event) {
            self.after(event).pending()
        } else {
            match event {
                FrameEvent::AcquireFailed(e) if self.state == FrameState::Idle => {
                    FrameAction::Abort(e)
                },
                _ => FrameAction::Discard,
            }
        }
    }
}

/// Records the passes of one frame in their order.
pub struct FrameCompositor {
    state: FrameState,
    region: Option<Viewport>,
    size: PhysicalSize,
}

impl View for FrameCompositor {
    type V = FrameView;

    closed spec fn view(&self) -> FrameView {
        FrameView { state: self.state, region: self.region, size: self.size }
    }
}

impl FrameCompositor {
    #[verifier::type_invariant]
    spec fn in_order(self) -> bool {
        self@.is_in_order()
    }

    /// The recording of a frame on a target of the given size, of which the
    /// selection covers `region`. Nothing is acquired or recorded yet.
    pub fn new(region: Option<Viewport>, size: PhysicalSize) -> (c: Self)
        ensures
            c@ == (FrameView { state: FrameState::Idle, region, size }),
    {
        FrameCompositor { state: FrameState::Idle, region, size }
    }

    pub fn state(&self) -> (s: FrameState)
        ensures
            s == self@.state,
            self@.is_in_order(),
    {
        proof {
            use_type_invariant(self);
        }
        self.state
    }

    /// The passes that have been recorded and have ended, in their order.
    pub fn passes(&self) -> (p: Vec<RenderPass>)
        ensures
            p@ == self@.passes(),
            self@.is_in_order(),
    {
        proof {
            use_type_invariant(self);
        }
        let mut p: Vec<RenderPass> = Vec::new();
        if self.state == FrameState::Idle || self.state == FrameState::FrameAcquired {
            return p;
        }
        p.push(Self::ui());
        if self.state == FrameState::UiPassDone {
            assert(p@ =~= self@.passes());
            return p;
        }
        if let Some(v) = self.region {
            p.push(Self::blur(v));
            if self.state == FrameState::BlurPassDone {
                assert(p@ =~= self@.passes());
                return p;
            }
            p.push(Self::copy_back(self.size));
            if self.state == FrameState::BackCopyDone {
                assert(p@ =~= self@.passes());
                return p;
            }
        }
        p.push(Self::present());
        assert(p@ =~= self@.passes());
        p
    }

    /// What is pending: what is to be done next.
    pub fn pending(&self) -> (a: FrameAction)
        ensures
            a == self@.pending(),
            self@.is_in_order(),
    {
        proof {
            use_type_invariant(self);
        }
        match self.state {
            FrameState::Idle => FrameAction::Acquire,
            FrameState::FrameAcquired => FrameAction::Record(Self::ui()),
            FrameState::UiPassDone => match self.region {
                Some(v) => FrameAction::Record(Self::blur(v)),
                None => FrameAction::Record(Self::present()),
            },
            FrameState::BlurPassDone => FrameAction::Record(Self::copy_back(self.size)),
            FrameState::BackCopyDone => FrameAction::Record(Self::present()),
            FrameState::PresentPassDone => FrameAction::Submit,
            FrameState::Submitted => FrameAction::Present,
        }
    }

    /// The pass of the user-interface layer.
    pub fn ui() -> (p: RenderPass)
        ensures
            p == ui_pass(),
    {
        RenderPass {
            target: Attachment::Texture(TextureView::Front),
            load: LoadOp::Load,
            store: true,
            viewport: None,
            draw: Draw::Ui,
        }
    }

    /// The blur pass on a region.
    pub fn blur(region: Viewport) -> (p: RenderPass)
        ensures
            p == blur_pass(region),
    {
        RenderPass {
            target: Attachment::Texture(TextureView::Back),
            load: LoadOp::Clear(Color { r: 0, g: 0, b: 0, a: 0 }),
            store: true,
            viewport: Some(region),
            draw: Draw::Quad {
                pipeline: PipelineId::BlurRect,
                vertices: QUAD_VERTICES,
                instances: 1,
            },
        }
    }

    /// The pass that copies the back texture over the front texture.
    pub fn copy_back(size: PhysicalSize) -> (p: RenderPass)
        ensures
            p == copy_back_pass(size),
    {
        RenderPass {
            target: Attachment::Texture(TextureView::Front),
            load: LoadOp::Load,
            store: true,
            viewport: Some(Viewport::full(size)),
            draw: Draw::Quad {
                pipeline: PipelineId::CopyBack,
                vertices: QUAD_VERTICES,
                instances: 1,
            },
        }
    }

    /// The pass that copies the front texture to the acquired frame.
    pub fn present() -> (p: RenderPass)
        ensures
            p == present_pass(),
    {
        RenderPass {
            target: Attachment::Surface,
            load: LoadOp::Load,
            store: true,
            viewport: None,
            draw: Draw::Quad {
                pipeline: PipelineId::Copy,
                vertices: QUAD_VERTICES,
                instances: 1,
            },
        }
    }

    /// Takes in an event and says what is to be done next. An event that
    /// does what was pending moves the frame on by one step. Any other
    /// event before the submission drops what was recorded: the frame is
    /// idle again and nothing of it is submitted. After the submission no
    /// event changes anything.
    pub fn advance(&mut self, event: FrameEvent) -> (action: FrameAction)
        ensures
            final(self)@ == old(self)@.after(event),
            action == old(self)@.action_on(event),
            old(self)@.is_in_order(),
            final(self)@.is_in_order(),
    {
        proof {
            use_type_invariant(&*self);
        }
        if self.state == FrameState::Submitted {
            return FrameAction::Finished;
        }
        let pending = self.pending();
        let done = match pending {
            FrameAction::Acquire => event == FrameEvent::Acquired,
            FrameAction::Record(_) => event == FrameEvent::PassEnded,
            FrameAction::Submit => event == FrameEvent::Submitted,
            _ => false,
        };
        if done {
            self.state = match self.state {
                FrameState::Idle => FrameState::FrameAcquired,
                FrameState::FrameAcquired => FrameState::UiPassDone,
                FrameState::UiPassDone => if self.region.is_some() {
                    FrameState::BlurPassDone
                } else {
                    FrameState::PresentPassDone
                },
                FrameState::BlurPassDone => FrameState::BackCopyDone,
                FrameState::BackCopyDone => FrameState::PresentPassDone,
                _ => FrameState::Submitted,
            };
            self.pending()
        } else {
            let idle = self.state == FrameState::Idle;
            self.state = FrameState::Idle;
            match event {
                FrameEvent::AcquireFailed(e) => if idle {
                    FrameAction::Abort(e)
                } else {
                    FrameAction::Discard
                },
                _ => FrameAction::Discard,
            }
        }
    }
}

/// Each pass that ends is added behind those that have ended before, and
/// nothing else changes what has been recorded, until a failure drops all
/// of it.
pub proof fn lemma_passes_grow_in_order(frame: FrameView, event: FrameEvent)
    requires
        frame.is_in_order(),
    ensures
        frame.after(event).is_in_order(),
        frame.completes(event) && frame.state != FrameState::Submitted ==> frame.after(
            event,
        ).passes() == match frame.pending() {
            FrameAction::Record(p) => frame.passes().push(p),
            _ => frame.passes(),
        },
        !frame.completes(event) && frame.state != FrameState::Submitted ==> frame.after(
            event,
        ).passes() == Seq::<RenderPass>::empty(),
{
    let next = frame.after(event);
    if frame.completes(event) && frame.state != FrameState::Submitted {
        match frame.pending() {
            FrameAction::Record(p) => {
                assert(next.passes() =~= frame.passes().push(p));
            },
            _ => {
                assert(next.passes() =~= frame.passes());
            },
        }
    }
}

/// A command buffer is submitted only with all passes of the frame in it:
/// `Submit` is pending in no state but the one in which the user interface,
/// the blur where there is one, and the presentation have been recorded.
pub proof fn lemma_nothing_partial_is_submitted(frame: FrameView)
    requires
        frame.pending() == FrameAction::Submit,
    ensures
        frame.state == FrameState::PresentPassDone,
        frame.passes() == frame_passes(frame.region, frame.size),
{
}

/// No pass of a frame samples the texture that it draws to.
pub proof fn lemma_no_pass_reads_its_target(region: Option<Viewport>, size: PhysicalSize, i: int)
    requires
        0 <= i < frame_passes(region, size).len(),
    ensures
        frame_passes(region, size)[i].draw matches Draw::Quad { pipeline, .. }
            ==> frame_passes(region, size)[i].target != Attachment::Texture(pipeline.samples()),
{
}

/// A frame has two passes where nothing is blurred and four where a region
/// is; the first is the user interface's and the last presents.
pub proof fn lemma_frame_passes_shape(region: Option<Viewport>, size: PhysicalSize)
    ensures
        region is None ==> frame_passes(region, size) == seq![ui_pass(), present_pass()],
        region matches Some(v) ==> frame_passes(region, size) == seq![
            ui_pass(),
            blur_pass(v),
            copy_back_pass(size),
            present_pass(),
        ],
{
    if region is Some {
        assert(frame_passes(region, size) =~= seq![
            ui_pass(),
            blur_pass(region->0),
            copy_back_pass(size),
            present_pass(),
        ]);
    } else {
        assert(frame_passes(region, size) =~= seq![ui_pass(), present_pass()]);
    }
}

} // verus!
