//! The window's program: what it does on each event and on each frame.
use crate::frame::{
    frame_passes, FrameAction, FrameCompositor, FrameEvent, FrameState, RenderPass,
};
use crate::geometry::{
    blur_region, blur_viewport, logical_size_of, PhysicalSize, Rect, ScaleFactor,
};
use crate::narrow::{f64_is_positive_normal, narrowed};
use crate::pipeline::{BufferWrite, UniformBuffer};
use crate::surface::{SurfaceCapabilities, SurfaceError, SurfaceRenderer, SurfaceState};
use crate::uniform::{rect_words, words_to_bytes};
use crate::window_texture::WindowTexture;
use vstd::prelude::*;

verus! {

/// Why the program could not be set up or could not take a scale factor.
#[derive(Clone, Copy, Debug, PartialEq, Eq, Structural)]
pub enum ProgramError {
    /// The adapter cannot present to the window's surface.
    IncompatibleSurface,
    /// The scale factor is not a positive normal number.
    InvalidScaleFactor,
}

/// A key of the keyboard.
#[derive(Clone, Copy, Debug, PartialEq, Eq, Structural)]
pub enum VirtualKeyCode {
    Q,
    Other,
}

/// What the window reports.
#[derive(Clone, Copy, Debug, PartialEq, Eq, Structural)]
pub enum WindowEvent {
    Resized(PhysicalSize),
    ScaleFactorChanged {
        /// The new scale factor, a double-precision pattern.
        scale_factor: u64,
        new_inner_size: PhysicalSize,
    },
    CloseRequested,
    KeyboardInput { virtual_keycode: Option<VirtualKeyCode> },
    Other,
}

/// What the event loop does next.
#[derive(Clone, Copy, Debug, PartialEq, Eq, Structural)]
pub enum ControlFlow {
    Poll,
    Wait,
    ExitWithCode(i32),
}

/// What is left to do after a frame was to be drawn.
#[derive(Clone, Copy, Debug, PartialEq, Eq, Structural)]
pub enum Redraw {
    /// Nothing.
    Continue,
    /// The surface is to be configured anew.
    Configure,
    /// The event loop has been told to exit.
    Exit,
    /// The frame was skipped; the error is to be reported.
    Report(SurfaceError),
}

/// What is recorded and submitted for one frame.
#[derive(Debug, PartialEq)]
pub struct Frame {
    /// The write that puts the selection into the rectangle uniform.
    pub rect_write: BufferWrite,
    /// The passes, in their order, of the one command buffer.
    pub passes: Vec<RenderPass>,
}

/// The program as contracts speak of it.
pub struct ProgramView {
    pub surface: SurfaceState,
    pub window_texture: WindowTexture,
}

impl WindowEvent {
    /// The event asks the program to end, unless the user interface has
    /// consumed it.
    pub open spec fn asks_to_exit(self) -> bool {
        self == WindowEvent::CloseRequested || self == (WindowEvent::KeyboardInput {
            virtual_keycode: Some(VirtualKeyCode::Q),
        })
    }
}

impl ProgramView {
    /// The mirror is the one of the surface as it is: no texture of another
    /// size is ever sampled or drawn to.
    pub open spec fn is_valid(self) -> bool {
        &&& self.surface.is_consistent()
        &&& self.surface.scale_fac.is_narrowed()
        &&& self.window_texture.mirrors(self.surface)
    }

    /// The scale factor after a request that may bring a new one, as a
    /// double-precision pattern: the new one and its narrowing.
    pub open spec fn requested_scale(self, new_scale_factor: Option<u64>) -> ScaleFactor {
        match new_scale_factor {
            Some(double) => ScaleFactor { double, single: narrowed(double) },
            None => self.surface.scale_fac,
        }
    }

    /// The request brings a scale factor that no window can have.
    pub open spec fn is_refused(new_scale_factor: Option<u64>) -> bool {
        new_scale_factor matches Some(double) && !f64_is_positive_normal(double)
    }

    /// The surface after a request for a size and maybe a scale factor. The
    /// scale factor is taken in any case; a size with a zero side is
    /// ignored.
    pub open spec fn requested_surface(
        self,
        new_inner_size: PhysicalSize,
        new_scale_factor: Option<u64>,
    ) -> SurfaceState {
        (SurfaceState {
            scale_fac: self.requested_scale(new_scale_factor),
            ..self.surface
        }).resized(new_inner_size)
    }

    /// The request changes the size or the scale factor of the surface, so
    /// that the mirror has to be made anew.
    pub open spec fn regenerates(
        self,
        new_inner_size: PhysicalSize,
        new_scale_factor: Option<u64>,
    ) -> bool {
        self.requested_surface(new_inner_size, new_scale_factor) != self.surface
    }

    /// The size and maybe scale factor that a window event brings.
    pub open spec fn request_of(event: WindowEvent) -> Option<(PhysicalSize, Option<u64>)> {
        match event {
            WindowEvent::Resized(size) => Some((size, None)),
            WindowEvent::ScaleFactorChanged { scale_factor, new_inner_size } => Some(
                (new_inner_size, Some(scale_factor)),
            ),
            _ => None,
        }
    }
}

/// The surface of the window and its off-screen mirror.
pub struct Program {
    surface: SurfaceRenderer,
    window_texture: WindowTexture,
}

impl View for Program {
    type V = ProgramView;

    closed spec fn view(&self) -> ProgramView {
        ProgramView { surface: self.surface@, window_texture: self.window_texture }
    }
}

impl Program {
    /// The program of a window of the given size and scale factor (a
    /// double-precision pattern), on a surface with the given capabilities.
    pub fn new(size: PhysicalSize, scale_factor: u64, caps: &SurfaceCapabilities) -> (r: Result<
        Self,
        ProgramError,
    >)
        ensures
            r is Ok <==> caps.is_compatible() && f64_is_positive_normal(scale_factor),
            r matches Err(e) ==> e == if caps.is_compatible() {
                ProgramError::InvalidScaleFactor
            } else {
                ProgramError::IncompatibleSurface
            },
            r matches Ok(p) ==> {
                &&& p@.is_valid()
                &&& p@.surface.size == size
                &&& p@.surface.scale_fac == (ScaleFactor {
                    double: scale_factor,
                    single: narrowed(scale_factor),
                })
                &&& crate::surface::is_window_configuration(p@.surface.config, *caps, size)
            },
    {
        if caps.formats.len() == 0 || caps.alpha_modes.len() == 0 {
            return Err(ProgramError::IncompatibleSurface);
        }
        let scale = match ScaleFactor::from_double(scale_factor) {
            Some(scale) => scale,
            None => { return Err(ProgramError::InvalidScaleFactor); },
        };
        let surface = SurfaceRenderer::from_window(size, scale, caps);
        match WindowTexture::from_surface(&surface) {
            Some(window_texture) => Ok(Program { surface, window_texture }),
            None => Err(ProgramError::InvalidScaleFactor),
        }
    }

    pub fn surface(&self) -> (s: &SurfaceRenderer)
        ensures
            s@ == self@.surface,
    {
        &self.surface
    }

    pub fn window_texture(&self) -> (wt: &WindowTexture)
        ensures
            *wt == self@.window_texture,
    {
        &self.window_texture
    }

    /// Takes a new size, and a new scale factor where there is one (a
    /// double-precision pattern), from the window. A factor that is not a
    /// positive normal number is refused, and nothing changes. Otherwise the
    /// scale factor is taken in any case; a size with a zero side is
    /// ignored. Where size or scale factor change, the mirror is made anew;
    /// then `true` is returned, and the surface is to be configured with its
    /// configuration. A request that changes neither changes nothing.
    pub fn resize(&mut self, new_inner_size: PhysicalSize, new_scale_factor: Option<u64>) -> (r:
        Result<bool, ProgramError>)
        requires
            old(self)@.is_valid(),
        ensures
            final(self)@.is_valid(),
            r is Err <==> ProgramView::is_refused(new_scale_factor),
            r matches Err(e) ==> e == ProgramError::InvalidScaleFactor
                && final(self)@ == old(self)@,
            r matches Ok(regenerated) ==> {
                &&& regenerated == old(self)@.regenerates(new_inner_size, new_scale_factor)
                &&& final(self)@.surface == old(self)@.requested_surface(
                    new_inner_size,
                    new_scale_factor,
                )
                &&& !regenerated ==> final(self)@ == old(self)@
            },
    {
        let scale = match new_scale_factor {
            Some(double) => match ScaleFactor::from_double(double) {
                Some(scale) => scale,
                None => { return Err(ProgramError::InvalidScaleFactor); },
            },
            None => self.surface.get_scale_fac(),
        };
        let size = if new_inner_size.width > 0 && new_inner_size.height > 0 {
            new_inner_size
        } else {
            self.surface.size()
        };
        if size == self.surface.size() && scale == self.surface.get_scale_fac() {
            return Ok(false);
        }
        self.surface.set_scale_factor(scale);
        self.surface.resize(new_inner_size);
        self.generate_window_texture();
        Ok(true)
    }

    /// Makes the mirror anew for the surface as it is.
    pub fn generate_window_texture(&mut self)
        requires
            old(self)@.surface.is_consistent(),
            old(self)@.surface.scale_fac.is_narrowed(),
        ensures
            final(self)@.surface == old(self)@.surface,
            final(self)@.is_valid(),
    {
        match WindowTexture::from_surface(&self.surface) {
            Some(window_texture) => {
                self.window_texture = window_texture;
            },
            None => {},
        }
    }

    /// Takes in an event of the window. `consumed` says whether the user
    /// interface has used the event up. A new size or scale factor is
    /// handed to [`Program::resize`]; a request to close the window, or the
    /// key Q, ends the event loop unless it was consumed.
    pub fn handle_window_event(
        &mut self,
        event: &WindowEvent,
        consumed: bool,
        control_flow: &mut ControlFlow,
    ) -> (r: Result<bool, ProgramError>)
        requires
            old(self)@.is_valid(),
        ensures
            final(self)@.is_valid(),
            *final(control_flow) == if !consumed && event.asks_to_exit() {
                ControlFlow::ExitWithCode(0)
            } else {
                *old(control_flow)
            },
            ProgramView::request_of(*event) is None ==> r == Ok::<bool, ProgramError>(false)
                && final(self)@ == old(self)@,
            ProgramView::request_of(*event) matches Some(q) ==> {
                &&& r is Err <==> ProgramView::is_refused(q.1)
                &&& r matches Err(e) ==> e == ProgramError::InvalidScaleFactor && final(self)@
                    == old(self)@
                &&& r matches Ok(regenerated) ==> {
                    &&& regenerated == old(self)@.regenerates(q.0, q.1)
                    &&& final(self)@.surface == old(self)@.requested_surface(q.0, q.1)
                    &&& !regenerated ==> final(self)@ == old(self)@
                }
            },
    {
        let resized = match event {
            WindowEvent::Resized(size) => self.resize(*size, None),
            WindowEvent::ScaleFactorChanged { scale_factor, new_inner_size } => {
                self.resize(*new_inner_size, Some(*scale_factor))
            },
            _ => Ok(false),
        };
        if !consumed {
            match event {
                WindowEvent::KeyboardInput { virtual_keycode: Some(VirtualKeyCode::Q) } => {
                    *control_flow = ControlFlow::ExitWithCode(0);
                },
                WindowEvent::CloseRequested => {
                    *control_flow = ControlFlow::ExitWithCode(0);
                },
                _ => {},
            }
        }
        resized
    }

    /// Takes in how the drawing of a frame ended. A lost surface is to be
    /// configured anew; without memory the event loop is told to exit with
    /// status 1; any other error is to be reported, and the loop goes on.
    pub fn handle_redraw_request(
        &mut self,
        drawn: Result<(), SurfaceError>,
        control_flow: &mut ControlFlow,
    ) -> (r: Redraw)
        requires
            old(self)@.is_valid(),
        ensures
            final(self)@ == old(self)@,
            r == match drawn {
                Ok(_) => Redraw::Continue,
                Err(SurfaceError::Lost) => if old(self)@.surface.size.is_drawable() {
                    Redraw::Configure
                } else {
                    Redraw::Continue
                },
                Err(SurfaceError::OutOfMemory) => Redraw::Exit,
                Err(e) => Redraw::Report(e),
            },
            *final(control_flow) == if drawn == Err::<(), SurfaceError>(SurfaceError::OutOfMemory) {
                ControlFlow::ExitWithCode(1)
            } else {
                *old(control_flow)
            },
    {
        match drawn {
            Ok(_) => Redraw::Continue,
            Err(SurfaceError::Lost) => {
                if self.surface.reconfigure() {
                    Redraw::Configure
                } else {
                    Redraw::Continue
                }
            },
            Err(SurfaceError::OutOfMemory) => {
                *control_flow = ControlFlow::ExitWithCode(1);
                Redraw::Exit
            },
            Err(e) => Redraw::Report(e),
        }
    }

    /// Lays out one frame. `rect` is the selection that the user interface
    /// reports for this frame, `acquired` the outcome of acquiring the frame
    /// from the surface. Without a frame nothing is recorded and the error
    /// is handed on. With one, the selection goes into the rectangle
    /// uniform and the passes of the frame are recorded in their order; the
    /// blur and the copy back are among them where the selection covers a
    /// region of the window, and only then. The region is that of the
    /// selection scaled in single precision by the window's scale factor
    /// narrowed to single precision.
    pub fn draw(&mut self, rect: Rect, acquired: Result<(), SurfaceError>) -> (r: Result<
        Frame,
        SurfaceError,
    >)
        requires
            old(self)@.is_valid(),
        ensures
            final(self)@ == old(self)@,
            acquired matches Err(e) ==> r == Err::<Frame, SurfaceError>(e),
            acquired is Ok ==> r is Ok,
            r matches Ok(frame) ==> {
                &&& frame.passes@ == frame_passes(
                    blur_region(
                        rect,
                        narrowed(old(self)@.surface.scale_fac.double),
                        old(self)@.surface.size,
                    ),
                    old(self)@.surface.size,
                )
                &&& frame.rect_write.buffer == UniformBuffer::Rect
                &&& frame.rect_write.offset == 0
                &&& frame.rect_write.data@ == words_to_bytes(rect_words(rect))
            },
    {
        if let Err(e) = self.surface.get_current_texture(acquired) {
            return Err(e);
        }
        let size = self.window_texture.physical_size();
        let region = blur_viewport(rect, self.window_texture.pixels_per_point().single, size);
        let mut compositor = FrameCompositor::new(region, size);
        let mut action = compositor.advance(FrameEvent::Acquired);
        let mut recording = Self::is_record(action);
        while recording
            invariant
                compositor@.region == region,
                compositor@.size == size,
                compositor@.is_in_order(),
                action == compositor@.pending(),
                recording == action is Record,
                compositor@.state != FrameState::Idle,
                compositor@.state != FrameState::Submitted,
            decreases 6 - compositor@.state.rank(),
        {
            action = compositor.advance(FrameEvent::PassEnded);
            recording = Self::is_record(action);
        }
        let rect_write = self.window_texture.pipeline_registry().set_rect(rect);
        Ok(Frame { rect_write, passes: compositor.passes() })
    }

    fn is_record(action: FrameAction) -> (r: bool)
        ensures
            r == action is Record,
    {
        match action {
            FrameAction::Record(_) => true,
            _ => false,
        }
    }
}

/// After a request for a new size has been met, the textures of the mirror
/// have exactly that size, and the window-size uniform holds the logical
/// size: the new size divided by the scale factor in force.
pub proof fn lemma_resize_regenerates_in_lockstep(
    before: ProgramView,
    after: ProgramView,
    new_inner_size: PhysicalSize,
    new_scale_factor: Option<u64>,
)
    requires
        after.is_valid(),
        new_inner_size.is_drawable(),
        after.surface == before.requested_surface(new_inner_size, new_scale_factor),
    ensures
        after.window_texture.texture.size.width == new_inner_size.width,
        after.window_texture.texture.size.height == new_inner_size.height,
        after.window_texture.back_texture.size == after.window_texture.texture.size,
        after.window_texture.size == new_inner_size,
        after.surface.config.width == new_inner_size.width,
        after.surface.config.height == new_inner_size.height,
        after.window_texture.pixels_per_point == before.requested_scale(new_scale_factor),
        after.window_texture.window_size_uniform.contents@ == words_to_bytes(
            crate::uniform::size_words(
                logical_size_of(new_inner_size, before.requested_scale(new_scale_factor).double),
            ),
        ),
{
}

/// A request that has been met asks for nothing when it comes again: the
/// same size and scale factor twice in a row make the mirror anew at most
/// once.
pub proof fn lemma_second_resize_regenerates_nothing(
    before: ProgramView,
    after: ProgramView,
    new_inner_size: PhysicalSize,
    new_scale_factor: Option<u64>,
)
    requires
        after.surface == before.requested_surface(new_inner_size, new_scale_factor),
    ensures
        !after.regenerates(new_inner_size, new_scale_factor),
        after.requested_surface(new_inner_size, new_scale_factor) == after.surface,
{
}

/// A new scale factor is taken even where it comes with a size that has a
/// zero side: the size stays, and the mirror is made anew for the factor.
pub proof fn lemma_scale_factor_is_always_taken(
    before: ProgramView,
    new_inner_size: PhysicalSize,
    scale_factor: u64,
)
    ensures
        before.requested_surface(new_inner_size, Some(scale_factor)).scale_fac.double
            == scale_factor,
        !new_inner_size.is_drawable() ==> before.requested_surface(
            new_inner_size,
            Some(scale_factor),
        ).size == before.surface.size,
        scale_factor != before.surface.scale_fac.double ==> before.regenerates(
            new_inner_size,
            Some(scale_factor),
        ),
{
}

/// A frame whose selection covers no pixel of the window has the pass of
/// the user interface and the presentation and nothing else: neither
/// texture of the mirror is drawn to by a blur or a copy back.
pub proof fn lemma_frame_without_region(rect: Rect, scale: u32, size: PhysicalSize)
    requires
        blur_region(rect, scale, size) is None,
    ensures
        frame_passes(blur_region(rect, scale, size), size) == seq![
            crate::frame::ui_pass(),
            crate::frame::present_pass(),
        ],
{
    crate::frame::lemma_frame_passes_shape(blur_region(rect, scale, size), size);
}

} // verus!
