use blur_rect::frame::{Attachment, Draw, LoadOp};
use blur_rect::geometry::{LogicalSize, PhysicalSize, Rect, ScaleFactor, Viewport};
use blur_rect::pipeline::{PipelineId, UniformBuffer};
use blur_rect::program::{
    ControlFlow, Program, ProgramError, Redraw, VirtualKeyCode, WindowEvent,
};
use blur_rect::surface::{PresentMode, SurfaceCapabilities, SurfaceError};
use blur_rect::window_texture::{Extent3d, TextureView};
use wgpu::{CompositeAlphaMode, TextureFormat};

fn caps() -> SurfaceCapabilities {
    SurfaceCapabilities {
        formats: vec![TextureFormat::Bgra8Unorm, TextureFormat::Bgra8UnormSrgb],
        alpha_modes: vec![CompositeAlphaMode::Opaque],
    }
}

fn logical(width: f32, height: f32) -> LogicalSize {
    LogicalSize { width: width.to_bits(), height: height.to_bits() }
}

fn rect(left: f32, top: f32, right: f32, bottom: f32) -> Rect {
    Rect {
        left: left.to_bits(),
        top: top.to_bits(),
        right: right.to_bits(),
        bottom: bottom.to_bits(),
    }
}

fn scale(factor: f64) -> ScaleFactor {
    ScaleFactor { double: factor.to_bits(), single: (factor as f32).to_bits() }
}

// The logical size as the windowing system computes it.
fn logical_of(width: u32, height: u32, factor: f64) -> LogicalSize {
    logical((width as f64 / factor) as f32, (height as f64 / factor) as f32)
}

fn program() -> Program {
    Program::new(PhysicalSize::new(455, 330), 1.0f64.to_bits(), &caps()).unwrap()
}

fn extent(width: u32, height: u32) -> Extent3d {
    Extent3d { width, height, depth_or_array_layers: 1 }
}

#[test]
fn window_opens_with_textures_of_its_size() {
    let p = program();
    assert_eq!(p.window_texture().texture.size, extent(455, 330));
    assert_eq!(p.window_texture().back_texture.size, extent(455, 330));
    assert_eq!(p.window_texture().physical_size(), PhysicalSize::new(455, 330));
    assert_eq!(p.surface().size(), PhysicalSize::new(455, 330));
    assert_eq!(p.surface().configure().width, 455);
    assert_eq!(p.surface().configure().height, 330);
    assert_eq!(p.surface().configure().present_mode, PresentMode::Fifo);
    assert_eq!(p.surface().format(), TextureFormat::Bgra8UnormSrgb);
    assert_eq!(p.window_texture().texture.format, TextureFormat::Bgra8UnormSrgb);
}

#[test]
fn surface_without_formats_is_refused() {
    let none = SurfaceCapabilities { formats: vec![], alpha_modes: vec![CompositeAlphaMode::Opaque] };
    let r = Program::new(PhysicalSize::new(455, 330), 1.0f64.to_bits(), &none);
    assert_eq!(r.err(), Some(ProgramError::IncompatibleSurface));
    let none = SurfaceCapabilities { formats: vec![TextureFormat::Bgra8Unorm], alpha_modes: vec![] };
    let r = Program::new(PhysicalSize::new(455, 330), 1.0f64.to_bits(), &none);
    assert_eq!(r.err(), Some(ProgramError::IncompatibleSurface));
}

#[test]
fn window_opens_at_every_scale_factor() {
    for factor in [2.0f64.powi(-100), 1.0e-300, 1.0e300, 0.5, 3.0] {
        let p = Program::new(PhysicalSize::new(455, 330), factor.to_bits(), &caps())
        .unwrap();
        assert_eq!(p.window_texture().texture.size, extent(455, 330));
        assert_eq!(p.window_texture().pixels_per_point(), scale(factor));
        assert_eq!(p.window_texture().logical_size, logical_of(455, 330, factor));
    }
}

#[test]
fn window_with_an_impossible_scale_factor_is_refused() {
    for factor in [0.0f64, -0.0, -1.0, f64::NAN, f64::INFINITY, 5.0e-324] {
        let r = Program::new(PhysicalSize::new(455, 330), factor.to_bits(), &caps());
        assert_eq!(r.err(), Some(ProgramError::InvalidScaleFactor));
    }
}

#[test]
fn impossible_scale_factor_changes_nothing() {
    let mut p = program();
    for factor in [0.0f64, -2.0, f64::NAN, f64::INFINITY] {
        assert_eq!(
            p.resize(PhysicalSize::new(800, 600), Some(factor.to_bits())),
            Err(ProgramError::InvalidScaleFactor)
        );
        assert_eq!(p.surface().size(), PhysicalSize::new(455, 330));
        assert_eq!(p.surface().get_scale_fac(), scale(1.0));
        assert_eq!(p.window_texture().texture.size, extent(455, 330));
    }
}

#[test]
fn selection_is_scaled_with_the_narrowed_scale_factor() {
    // The factor narrows to 1.0000001, and 1.4999999 times that is 1.5 in
    // single precision: the left bound lies on pixel 2.
    let double = f64::from_bits(0x3FF0_0000_1000_0004);
    let mut p = Program::new(PhysicalSize::new(455, 330), double.to_bits(), &caps())
    .unwrap();
    assert_eq!(p.surface().get_scale_fac().single, 0x3F80_0001);
    let r = Rect {
        left: 0x3FBF_FFFF,
        top: 0x3FBF_FFFF,
        right: 250.0f32.to_bits(),
        bottom: 310.0f32.to_bits(),
    };
    let frame = p.draw(r, Ok(())).unwrap();
    assert_eq!(frame.passes[1].viewport, Some(Viewport { x: 2, y: 2, width: 248, height: 308 }));
}

#[test]
fn resize_makes_textures_of_the_new_size() {
    let mut p = program();
    assert_eq!(p.resize(PhysicalSize::new(800, 600), None), Ok(true));
    assert_eq!(p.window_texture().texture.size, extent(800, 600));
    assert_eq!(p.window_texture().back_texture.size, extent(800, 600));
    assert_eq!(p.window_texture().physical_size(), PhysicalSize::new(800, 600));
    assert_eq!(p.surface().size(), PhysicalSize::new(800, 600));
    assert_eq!(p.surface().configure().width, 800);
    assert_eq!(p.surface().configure().height, 600);
    let mut expected = Vec::new();
    expected.extend_from_slice(&800.0f32.to_le_bytes());
    expected.extend_from_slice(&600.0f32.to_le_bytes());
    assert_eq!(p.window_texture().window_size_uniform.contents, expected);
}

#[test]
fn resize_at_an_extreme_scale_factor_makes_textures_of_the_new_size() {
    let factor = 2.0f64.powi(-100);
    let mut p = program();
    assert_eq!(p.resize(PhysicalSize::new(800, 600), Some(factor.to_bits())), Ok(true));
    assert_eq!(p.window_texture().texture.size, extent(800, 600));
    assert_eq!(p.window_texture().back_texture.size, extent(800, 600));
    assert_eq!(p.surface().size(), PhysicalSize::new(800, 600));
    assert_eq!(p.window_texture().pixels_per_point(), scale(factor));
}

#[test]
fn window_size_uniform_holds_the_quotient_rounded_twice() {
    // One pixel at a scale factor at which dividing in double precision and
    // narrowing gives another pattern than rounding the quotient once.
    let factor = f64::from_bits(0x3FEF_FFFF_A000_0120);
    assert_eq!(logical_of(1, 1, factor).width, 0x3F80_0002);
    let mut p = program();
    assert_eq!(p.resize(PhysicalSize::new(1, 1), Some(factor.to_bits())), Ok(true));
    let mut expected = Vec::new();
    expected.extend_from_slice(&0x3F80_0002u32.to_le_bytes());
    expected.extend_from_slice(&0x3F80_0002u32.to_le_bytes());
    assert_eq!(p.window_texture().window_size_uniform.contents, expected);
    assert_eq!(p.window_texture().window_size_write.data, expected);
}

#[test]
fn window_size_uniform_holds_the_logical_size_after_every_resize() {
    let mut p = program();
    for factor in [1.0f64, 1.25, 1.5, 2.0, 3.0, 1.1, 2.0f64.powi(-100), 1.0e300] {
        for (w, h) in [(800u32, 600u32), (1, 1), (455, 330), (8192, 4320), (3, 7)] {
            p.resize(PhysicalSize::new(w, h), Some(factor.to_bits())).unwrap();
            let l = logical_of(w, h, factor);
            let mut expected = Vec::new();
            expected.extend_from_slice(&l.width.to_le_bytes());
            expected.extend_from_slice(&l.height.to_le_bytes());
            assert_eq!(p.window_texture().window_size_uniform.contents, expected);
            assert_eq!(p.window_texture().logical_size, l);
            assert_eq!(p.window_texture().texture.size, extent(w, h));
        }
    }
}

#[test]
fn resize_to_the_same_size_makes_nothing_anew() {
    let mut p = program();
    assert_eq!(p.resize(PhysicalSize::new(800, 600), None), Ok(true));
    assert_eq!(p.resize(PhysicalSize::new(800, 600), None), Ok(false));
    assert_eq!(p.resize(PhysicalSize::new(800, 600), None), Ok(false));
    assert_eq!(p.window_texture().texture.size, extent(800, 600));
}

#[test]
fn resize_to_the_size_at_hand_makes_nothing_anew() {
    let mut p = program();
    assert_eq!(p.resize(PhysicalSize::new(455, 330), None), Ok(false));
    assert_eq!(p.resize(PhysicalSize::new(455, 330), Some(1.0f64.to_bits())), Ok(false));
    assert_eq!(p.window_texture().logical_size, logical(455.0, 330.0));
}

#[test]
fn resize_to_a_size_with_a_zero_side_is_ignored() {
    let mut p = program();
    assert_eq!(p.resize(PhysicalSize::new(0, 0), None), Ok(false));
    assert_eq!(p.resize(PhysicalSize::new(0, 600), None), Ok(false));
    assert_eq!(p.resize(PhysicalSize::new(800, 0), Some(1.0f64.to_bits())), Ok(false));
    assert_eq!(p.surface().size(), PhysicalSize::new(455, 330));
    assert_eq!(p.surface().get_scale_fac(), scale(1.0));
    assert_eq!(p.window_texture().texture.size, extent(455, 330));
}

#[test]
fn scale_factor_is_taken_even_with_a_size_with_a_zero_side() {
    let mut p = program();
    assert_eq!(p.resize(PhysicalSize::new(0, 660), Some(2.0f64.to_bits())), Ok(true));
    assert_eq!(p.surface().get_scale_fac(), scale(2.0));
    assert_eq!(p.surface().size(), PhysicalSize::new(455, 330));
    assert_eq!(p.window_texture().pixels_per_point(), scale(2.0));
    assert_eq!(p.window_texture().texture.size, extent(455, 330));
    assert_eq!(p.window_texture().logical_size, logical(227.5, 165.0));
    assert_eq!(p.resize(PhysicalSize::new(0, 660), Some(2.0f64.to_bits())), Ok(false));
}

#[test]
fn doubled_scale_factor_doubles_the_textures_and_keeps_the_uniforms() {
    let mut p = program();
    let before = program();
    let r = rect(50.0, 50.0, 250.0, 310.0);
    let frame_before = p.draw(r, Ok(())).unwrap();
    assert_eq!(p.resize(PhysicalSize::new(910, 660), Some(2.0f64.to_bits())), Ok(true));
    assert_eq!(p.window_texture().texture.size, extent(910, 660));
    assert_eq!(p.window_texture().pixels_per_point(), scale(2.0));
    assert_eq!(
        p.window_texture().window_size_uniform,
        before.window_texture().window_size_uniform
    );
    let frame_after = p.draw(r, Ok(())).unwrap();
    assert_eq!(frame_after.rect_write, frame_before.rect_write);
    assert_eq!(
        frame_before.passes[1].viewport,
        Some(Viewport { x: 50, y: 50, width: 200, height: 260 })
    );
    assert_eq!(
        frame_after.passes[1].viewport,
        Some(Viewport { x: 100, y: 100, width: 400, height: 520 })
    );
    assert_eq!(
        frame_after.passes[2].viewport,
        Some(Viewport { x: 0, y: 0, width: 910, height: 660 })
    );
}

#[test]
fn scale_factor_alone_makes_the_mirror_anew() {
    let mut p = program();
    assert_eq!(p.resize(PhysicalSize::new(455, 330), Some(2.0f64.to_bits())), Ok(true));
    assert_eq!(p.window_texture().pixels_per_point(), scale(2.0));
    assert_eq!(p.window_texture().texture.size, extent(455, 330));
    assert_eq!(p.resize(PhysicalSize::new(455, 330), Some(2.0f64.to_bits())), Ok(false));
}

#[test]
fn generate_window_texture_follows_the_surface() {
    let mut p = program();
    p.generate_window_texture();
    assert_eq!(p.window_texture().texture.size, extent(455, 330));
    assert_eq!(p.window_texture().logical_size, logical(455.0, 330.0));
}

#[test]
fn frame_with_selection_has_four_passes() {
    let mut p = program();
    let frame = p.draw(rect(50.0, 50.0, 250.0, 310.0), Ok(())).unwrap();
    assert_eq!(frame.passes.len(), 4);
    assert_eq!(frame.passes[0].target, Attachment::Texture(TextureView::Front));
    assert_eq!(frame.passes[0].draw, Draw::Ui);
    assert_eq!(frame.passes[0].load, LoadOp::Load);
    assert_eq!(frame.passes[1].target, Attachment::Texture(TextureView::Back));
    assert_eq!(frame.passes[1].viewport, Some(Viewport { x: 50, y: 50, width: 200, height: 260 }));
    assert_eq!(
        frame.passes[1].draw,
        Draw::Quad { pipeline: PipelineId::BlurRect, vertices: 4, instances: 1 }
    );
    assert_eq!(frame.passes[2].target, Attachment::Texture(TextureView::Front));
    assert_eq!(frame.passes[2].viewport, Some(Viewport { x: 0, y: 0, width: 455, height: 330 }));
    assert_eq!(
        frame.passes[2].draw,
        Draw::Quad { pipeline: PipelineId::CopyBack, vertices: 4, instances: 1 }
    );
    assert_eq!(frame.passes[3].target, Attachment::Surface);
    assert_eq!(frame.passes[3].load, LoadOp::Load);
    assert_eq!(frame.passes[3].viewport, None);
    assert_eq!(
        frame.passes[3].draw,
        Draw::Quad { pipeline: PipelineId::Copy, vertices: 4, instances: 1 }
    );
}

#[test]
fn frame_with_empty_selection_has_no_blur() {
    let mut p = program();
    for r in [
        rect(50.0, 50.0, 50.0, 310.0),
        rect(50.0, 50.0, 250.0, 50.0),
        rect(0.0, 0.0, 0.0, 0.0),
        rect(-500.0, 50.0, -300.0, 310.0),
        rect(250.0, 50.0, 50.0, 310.0),
    ] {
        let frame = p.draw(r, Ok(())).unwrap();
        assert_eq!(frame.passes.len(), 2);
        assert_eq!(frame.passes[0].draw, Draw::Ui);
        assert_eq!(frame.passes[0].target, Attachment::Texture(TextureView::Front));
        assert_eq!(frame.passes[1].target, Attachment::Surface);
        for pass in &frame.passes {
            assert_ne!(pass.target, Attachment::Texture(TextureView::Back));
            assert!(!matches!(
                pass.draw,
                Draw::Quad { pipeline: PipelineId::BlurRect | PipelineId::CopyBack, .. }
            ));
        }
    }
}

#[test]
fn frame_writes_the_selection_to_the_rect_uniform() {
    let mut p = program();
    let frame = p.draw(rect(50.0, 60.0, 250.0, 310.0), Ok(())).unwrap();
    assert_eq!(frame.rect_write.buffer, UniformBuffer::Rect);
    assert_eq!(frame.rect_write.offset, 0);
    let mut expected = Vec::new();
    for v in [50.0f32, 60.0, 250.0, 310.0] {
        expected.extend_from_slice(&v.to_le_bytes());
    }
    assert_eq!(frame.rect_write.data, expected);
    let empty = p.draw(rect(5.0, 5.0, 5.0, 5.0), Ok(())).unwrap();
    assert_eq!(empty.rect_write.data.len(), 16);
}

#[test]
fn frame_selection_across_the_edge_is_cut() {
    let mut p = program();
    let frame = p.draw(rect(400.0, 300.0, 900.0, 900.0), Ok(())).unwrap();
    assert_eq!(frame.passes[1].viewport, Some(Viewport { x: 400, y: 300, width: 55, height: 30 }));
}

#[test]
fn no_frame_without_an_acquired_texture() {
    for e in [SurfaceError::Lost, SurfaceError::OutOfMemory, SurfaceError::Timeout, SurfaceError::Outdated] {
        let mut p = program();
        assert_eq!(p.draw(rect(50.0, 50.0, 250.0, 310.0), Err(e)).err(), Some(e));
        assert_eq!(p.surface().size(), PhysicalSize::new(455, 330));
        assert_eq!(p.window_texture().texture.size, extent(455, 330));
    }
}

#[test]
fn lost_surface_is_configured_anew() {
    let mut p = program();
    let mut flow = ControlFlow::Poll;
    assert_eq!(p.handle_redraw_request(Err(SurfaceError::Lost), &mut flow), Redraw::Configure);
    assert_eq!(flow, ControlFlow::Poll);
    assert_eq!(p.surface().configure().width, 455);
}

#[test]
fn lost_surface_of_an_empty_window_is_left_alone() {
    let mut p =
        Program::new(PhysicalSize::new(0, 0), 1.0f64.to_bits(), &caps()).unwrap();
    let mut flow = ControlFlow::Poll;
    assert_eq!(p.handle_redraw_request(Err(SurfaceError::Lost), &mut flow), Redraw::Continue);
}

#[test]
fn out_of_memory_exits_with_status_one() {
    let mut p = program();
    let mut flow = ControlFlow::Poll;
    assert_eq!(p.handle_redraw_request(Err(SurfaceError::OutOfMemory), &mut flow), Redraw::Exit);
    assert_eq!(flow, ControlFlow::ExitWithCode(1));
}

#[test]
fn other_errors_are_reported_and_the_loop_goes_on() {
    for e in [SurfaceError::Timeout, SurfaceError::Outdated] {
        let mut p = program();
        let mut flow = ControlFlow::Wait;
        assert_eq!(p.handle_redraw_request(Err(e), &mut flow), Redraw::Report(e));
        assert_eq!(flow, ControlFlow::Wait);
    }
}

#[test]
fn drawn_frame_needs_nothing_more() {
    let mut p = program();
    let mut flow = ControlFlow::Poll;
    assert_eq!(p.handle_redraw_request(Ok(()), &mut flow), Redraw::Continue);
    assert_eq!(flow, ControlFlow::Poll);
}

#[test]
fn resized_event_resizes() {
    let mut p = program();
    let mut flow = ControlFlow::Poll;
    let event = WindowEvent::Resized(PhysicalSize::new(640, 480));
    assert_eq!(p.handle_window_event(&event, false, &mut flow), Ok(true));
    assert_eq!(p.window_texture().texture.size, extent(640, 480));
    assert_eq!(p.handle_window_event(&event, true, &mut flow), Ok(false));
    assert_eq!(flow, ControlFlow::Poll);
}

#[test]
fn scale_factor_event_resizes_and_rescales() {
    let mut p = program();
    let mut flow = ControlFlow::Poll;
    let event = WindowEvent::ScaleFactorChanged {
        scale_factor: 2.0f64.to_bits(),
        new_inner_size: PhysicalSize::new(910, 660),
    };
    assert_eq!(p.handle_window_event(&event, false, &mut flow), Ok(true));
    assert_eq!(p.surface().get_scale_fac(), scale(2.0));
    assert_eq!(p.window_texture().texture.size, extent(910, 660));
    assert_eq!(flow, ControlFlow::Poll);
}

#[test]
fn close_request_and_q_end_the_loop() {
    for event in [
        WindowEvent::CloseRequested,
        WindowEvent::KeyboardInput { virtual_keycode: Some(VirtualKeyCode::Q) },
    ] {
        let mut p = program();
        let mut flow = ControlFlow::Poll;
        assert_eq!(p.handle_window_event(&event, false, &mut flow), Ok(false));
        assert_eq!(flow, ControlFlow::ExitWithCode(0));
    }
}

#[test]
fn consumed_events_do_not_end_the_loop() {
    for event in [
        WindowEvent::CloseRequested,
        WindowEvent::KeyboardInput { virtual_keycode: Some(VirtualKeyCode::Q) },
    ] {
        let mut p = program();
        let mut flow = ControlFlow::Poll;
        assert_eq!(p.handle_window_event(&event, true, &mut flow), Ok(false));
        assert_eq!(flow, ControlFlow::Poll);
    }
}

#[test]
fn other_events_change_nothing() {
    for event in [
        WindowEvent::Other,
        WindowEvent::KeyboardInput { virtual_keycode: Some(VirtualKeyCode::Other) },
        WindowEvent::KeyboardInput { virtual_keycode: None },
    ] {
        let mut p = program();
        let mut flow = ControlFlow::Wait;
        assert_eq!(p.handle_window_event(&event, false, &mut flow), Ok(false));
        assert_eq!(flow, ControlFlow::Wait);
        assert_eq!(p.surface().size(), PhysicalSize::new(455, 330));
    }
}
