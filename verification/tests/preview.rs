use recorder_core::preview::{bgra_to_rgba, capture_window_preview};

const PNG_SIGNATURE: [u8; 8] = [137, 80, 78, 71, 13, 10, 26, 10];

#[test]
fn test_bgra_to_rgba_swaps_channels() {
    let bgra = vec![1, 2, 3, 4, 10, 20, 30, 40];
    let rgba = bgra_to_rgba(&bgra);
    assert_eq!(rgba, vec![3, 2, 1, 4, 30, 20, 10, 40]);
}

#[test]
fn test_capture_window_preview_encodes_png() {
    // A 2x1 image: the output is a PNG, so it starts with the fixed
    // signature and is not the raw pixel buffer handed in.
    let bgra = vec![0, 0, 255, 255, 255, 0, 0, 255];
    let png = capture_window_preview(2, 1, bgra.clone()).unwrap();
    assert_eq!(&png[..8], &PNG_SIGNATURE);
    assert_ne!(png, bgra);
    // The decoder reads back exactly the RGBA pixels that were encoded.
    let decoder = png::Decoder::new(std::io::Cursor::new(png));
    let mut reader = decoder.read_info().unwrap();
    let mut buf = vec![0u8; reader.output_buffer_size().unwrap()];
    let info = reader.next_frame(&mut buf).unwrap();
    assert_eq!((info.width, info.height), (2, 1));
    assert_eq!(&buf[..info.buffer_size()], &[255, 0, 0, 255, 0, 0, 255, 255]);
}

#[test]
fn test_capture_window_preview_rejects_zero_dimensions() {
    let err = capture_window_preview(0, 4, vec![0; 16]).unwrap_err();
    assert_eq!(err, "Window has invalid dimensions");
}

#[test]
fn test_capture_window_preview_rejects_wrong_buffer_size() {
    let err = capture_window_preview(2, 2, vec![0; 15]).unwrap_err();
    assert_eq!(err, "Pixel buffer does not match dimensions");
}
