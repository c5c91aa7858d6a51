use blur_rect::geometry::{LogicalSize, Rect};
use blur_rect::uniform::{decode_words, encode_words, read_rect, rect_bytes, size_bytes};

fn rect(left: f32, top: f32, right: f32, bottom: f32) -> Rect {
    Rect {
        left: left.to_bits(),
        top: top.to_bits(),
        right: right.to_bits(),
        bottom: bottom.to_bits(),
    }
}

#[test]
fn words_are_laid_out_least_significant_byte_first() {
    assert_eq!(encode_words(&vec![0x0403_0201]), vec![1, 2, 3, 4]);
    assert_eq!(
        encode_words(&vec![0x0000_0001, 0xff00_0000]),
        vec![1, 0, 0, 0, 0, 0, 0, 0xff]
    );
    assert_eq!(encode_words(&vec![]), Vec::<u8>::new());
}

#[test]
fn bytes_are_read_back_as_words() {
    assert_eq!(decode_words(&vec![1, 2, 3, 4]), vec![0x0403_0201]);
    assert_eq!(decode_words(&vec![1, 2, 3, 4, 5, 6, 7, 8]), vec![0x0403_0201, 0x0807_0605]);
    assert_eq!(decode_words(&vec![]), Vec::<u32>::new());
}

#[test]
fn bytes_beyond_the_last_whole_word_are_left_out() {
    assert_eq!(decode_words(&vec![1, 2, 3]), Vec::<u32>::new());
    assert_eq!(decode_words(&vec![1, 2, 3, 4, 5]), vec![0x0403_0201]);
}

#[test]
fn rect_uniform_holds_left_top_right_bottom() {
    let bytes = rect_bytes(rect(50.0, 60.0, 250.0, 310.0));
    let mut expected = Vec::new();
    expected.extend_from_slice(&50.0f32.to_le_bytes());
    expected.extend_from_slice(&60.0f32.to_le_bytes());
    expected.extend_from_slice(&250.0f32.to_le_bytes());
    expected.extend_from_slice(&310.0f32.to_le_bytes());
    assert_eq!(bytes, expected);
    assert_eq!(bytes.len(), 16);
    assert_eq!(&bytes[0..4], &[0x00, 0x00, 0x48, 0x42]);
}

#[test]
fn size_uniform_holds_width_and_height() {
    let bytes = size_bytes(LogicalSize { width: 455.0f32.to_bits(), height: 330.0f32.to_bits() });
    let mut expected = Vec::new();
    expected.extend_from_slice(&455.0f32.to_le_bytes());
    expected.extend_from_slice(&330.0f32.to_le_bytes());
    assert_eq!(bytes, expected);
    assert_eq!(bytes.len(), 8);
}

#[test]
fn rect_written_and_read_back_is_the_same_bit_for_bit() {
    let rects = [
        rect(50.0, 50.0, 250.0, 310.0),
        rect(0.0, -0.0, f32::MIN_POSITIVE, f32::MAX),
        rect(f32::NAN, f32::INFINITY, f32::NEG_INFINITY, 1.0e-40),
        Rect { left: 0xffff_ffff, top: 0x7fc0_0001, right: 0x8000_0000, bottom: 0x0000_0001 },
    ];
    for r in rects {
        assert_eq!(read_rect(&rect_bytes(r)), Some(r));
    }
}

#[test]
fn words_written_and_read_back_are_the_same() {
    let words = vec![0, 1, 0xdead_beef, u32::MAX, 0x8000_0000, 42];
    assert_eq!(decode_words(&encode_words(&words)), words);
}

#[test]
fn bytes_of_another_length_hold_no_rect() {
    assert_eq!(read_rect(&vec![]), None);
    assert_eq!(read_rect(&vec![0; 15]), None);
    assert_eq!(read_rect(&vec![0; 17]), None);
    assert_eq!(read_rect(&vec![0; 8]), None);
    assert_eq!(read_rect(&vec![0; 16]), Some(Rect { left: 0, top: 0, right: 0, bottom: 0 }));
}
