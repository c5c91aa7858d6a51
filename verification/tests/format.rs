use blur_rect::format::{choose_format, preferred_index};
use wgpu::TextureFormat;

#[test]
fn first_srgb_flag_is_preferred() {
    assert_eq!(preferred_index(&vec![false, true, true]), 1);
    assert_eq!(preferred_index(&vec![true, false]), 0);
    assert_eq!(preferred_index(&vec![false, false, false, true]), 3);
}

#[test]
fn without_srgb_the_first_entry_is_preferred() {
    assert_eq!(preferred_index(&vec![false]), 0);
    assert_eq!(preferred_index(&vec![false, false, false]), 0);
}

#[test]
fn srgb_format_is_chosen_where_there_is_one() {
    let formats = vec![
        TextureFormat::Bgra8Unorm,
        TextureFormat::Rgba8Unorm,
        TextureFormat::Bgra8UnormSrgb,
        TextureFormat::Rgba8UnormSrgb,
    ];
    assert_eq!(choose_format(&formats), (2, TextureFormat::Bgra8UnormSrgb));
}

#[test]
fn first_format_is_chosen_where_none_is_srgb() {
    let formats = vec![TextureFormat::Rgba16Float, TextureFormat::Bgra8Unorm, TextureFormat::Rgb10a2Unorm];
    assert_eq!(choose_format(&formats), (0, TextureFormat::Rgba16Float));
}

#[test]
fn only_format_is_chosen() {
    assert_eq!(choose_format(&vec![TextureFormat::Bgra8Unorm]), (0, TextureFormat::Bgra8Unorm));
    assert_eq!(
        choose_format(&vec![TextureFormat::Rgba8UnormSrgb]),
        (0, TextureFormat::Rgba8UnormSrgb)
    );
}
