use blur_rect::frame::{Attachment, Draw, LoadOp};
use blur_rect::geometry::{PhysicalSize, Rect, ScaleFactor, Viewport};
use blur_rect::pipeline::PipelineId;
use blur_rect::surface::{SurfaceCapabilities, SurfaceRenderer};
use blur_rect::ui::ui_main;
use blur_rect::window_texture::{TextureView, WindowTexture};
use wgpu::{CompositeAlphaMode, TextureFormat};

fn mirror(width: u32, height: u32, scale: f64) -> WindowTexture {
    let caps = SurfaceCapabilities {
        formats: vec![TextureFormat::Bgra8UnormSrgb],
        alpha_modes: vec![CompositeAlphaMode::Opaque],
    };
    let factor = ScaleFactor { double: scale.to_bits(), single: (scale as f32).to_bits() };
    let r = SurfaceRenderer::from_window(PhysicalSize::new(width, height), factor, &caps);
    WindowTexture::from_surface(&r).unwrap()
}

fn rect(left: f32, top: f32, right: f32, bottom: f32) -> Rect {
    Rect {
        left: left.to_bits(),
        top: top.to_bits(),
        right: right.to_bits(),
        bottom: bottom.to_bits(),
    }
}

#[test]
fn selection_is_blurred_into_back_and_copied_to_front() {
    let passes = ui_main(&mirror(455, 330, 1.0), rect(50.0, 50.0, 250.0, 310.0));
    assert_eq!(passes.len(), 2);
    assert_eq!(passes[0].target, Attachment::Texture(TextureView::Back));
    assert!(matches!(passes[0].load, LoadOp::Clear(_)));
    assert_eq!(passes[0].viewport, Some(Viewport { x: 50, y: 50, width: 200, height: 260 }));
    assert_eq!(
        passes[0].draw,
        Draw::Quad { pipeline: PipelineId::BlurRect, vertices: 4, instances: 1 }
    );
    assert_eq!(passes[1].target, Attachment::Texture(TextureView::Front));
    assert_eq!(passes[1].load, LoadOp::Load);
    assert_eq!(passes[1].viewport, Some(Viewport { x: 0, y: 0, width: 455, height: 330 }));
    assert_eq!(
        passes[1].draw,
        Draw::Quad { pipeline: PipelineId::CopyBack, vertices: 4, instances: 1 }
    );
    assert!(passes[0].store && passes[1].store);
}

#[test]
fn viewport_follows_the_scale_factor() {
    let passes = ui_main(&mirror(910, 660, 2.0), rect(50.0, 50.0, 250.0, 310.0));
    assert_eq!(passes[0].viewport, Some(Viewport { x: 100, y: 100, width: 400, height: 520 }));
    assert_eq!(passes[1].viewport, Some(Viewport { x: 0, y: 0, width: 910, height: 660 }));
}

#[test]
fn empty_selection_has_no_passes() {
    let wt = mirror(455, 330, 1.0);
    assert!(ui_main(&wt, rect(50.0, 50.0, 50.0, 50.0)).is_empty());
    assert!(ui_main(&wt, rect(50.0, 50.0, 250.0, 50.0)).is_empty());
    assert!(ui_main(&wt, rect(600.0, 50.0, 800.0, 310.0)).is_empty());
    assert!(ui_main(&wt, rect(f32::NAN, 50.0, 800.0, 310.0)).is_empty());
}
