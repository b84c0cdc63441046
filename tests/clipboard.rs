use velo::clipboard::{clipboard_image, ClipboardImageError};

#[test]
fn exact_buffer_is_accepted() {
    let bytes: Vec<u8> = (0..24).collect();
    let p = clipboard_image(3, 2, bytes.clone()).unwrap();
    assert_eq!((p.width, p.height), (3, 2));
    assert_eq!(p.bytes, bytes);
}

#[test]
fn longer_buffer_is_kept_whole() {
    let bytes: Vec<u8> = (0..30).collect();
    let p = clipboard_image(2, 2, bytes.clone()).unwrap();
    assert_eq!(p.bytes, bytes);
}

#[test]
fn short_buffer_is_refused() {
    let bytes: Vec<u8> = vec![0; 23];
    assert_eq!(clipboard_image(3, 2, bytes).unwrap_err(), ClipboardImageError::BufferTooSmall);
}

#[test]
fn empty_picture() {
    let p = clipboard_image(0, 5, vec![]).unwrap();
    assert_eq!((p.width, p.height, p.bytes.len()), (0, 5, 0));
}

#[test]
fn oversized_dimensions_are_refused() {
    let big = (u32::MAX as usize) + 1;
    assert_eq!(clipboard_image(big, 1, vec![]).unwrap_err(), ClipboardImageError::WidthTooLarge);
    assert_eq!(clipboard_image(1, big, vec![]).unwrap_err(), ClipboardImageError::HeightTooLarge);
    assert_eq!(clipboard_image(big, big, vec![]).unwrap_err(), ClipboardImageError::WidthTooLarge);
}

#[test]
fn overflowing_size_is_refused() {
    let side = u32::MAX as usize;
    assert_eq!(
        clipboard_image(side, side, vec![0; 8]).unwrap_err(),
        ClipboardImageError::BufferTooSmall
    );
}
