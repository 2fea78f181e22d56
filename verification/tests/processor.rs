use schnapsshot::border::BorderType;
use schnapsshot::error::PhotoBorderError;
use schnapsshot::metadata::ExifData;
use schnapsshot::processor::PhotoBorder;

const WHITE: (u8, u8, u8) = (255, 255, 255);

fn table_record(out: &mut Vec<u8>, tag: &[u8; 4], offset: u32, length: u32) {
    out.extend_from_slice(tag);
    out.extend_from_slice(&0u32.to_be_bytes());
    out.extend_from_slice(&offset.to_be_bytes());
    out.extend_from_slice(&length.to_be_bytes());
}

fn smallest_font() -> Vec<u8> {
    let mut out = vec![0x00, 0x01, 0x00, 0x00, 0x00, 0x03, 0, 0, 0, 0, 0, 0];
    table_record(&mut out, b"head", 60, 54);
    table_record(&mut out, b"hhea", 114, 36);
    table_record(&mut out, b"maxp", 150, 6);
    let mut head = vec![0u8; 54];
    head[18] = 0x03;
    head[19] = 0xe8;
    out.extend_from_slice(&head);
    out.extend_from_slice(&[0u8; 36]);
    out.extend_from_slice(&[0x00, 0x00, 0x50, 0x00, 0x00, 0x01]);
    out
}

/// A little-endian TIFF file whose only content is a sensitivity of 200.
fn file_with_iso() -> Vec<u8> {
    let mut out = vec![0x49, 0x49, 0x2a, 0x00, 0x08, 0x00, 0x00, 0x00];
    out.extend_from_slice(&[0x01, 0x00]);
    out.extend_from_slice(&[0x69, 0x87, 0x04, 0x00, 0x01, 0x00, 0x00, 0x00, 26, 0, 0, 0]);
    out.extend_from_slice(&[0, 0, 0, 0]);
    out.extend_from_slice(&[0x01, 0x00]);
    out.extend_from_slice(&[0x27, 0x88, 0x03, 0x00, 0x01, 0x00, 0x00, 0x00, 200, 0, 0, 0]);
    out.extend_from_slice(&[0, 0, 0, 0]);
    out
}

/// An image whose pixel at `(x, y)` is `(x, y, 3)`.
fn picture(width: u32, height: u32) -> image::DynamicImage {
    let mut samples = Vec::new();
    for y in 0..height {
        for x in 0..width {
            samples.extend_from_slice(&[x as u8, y as u8, 3]);
        }
    }
    image::DynamicImage::ImageRgb8(image::RgbImage::from_raw(width, height, samples).unwrap())
}

fn no_metadata() -> Result<Vec<u8>, PhotoBorderError> {
    Ok(Vec::new())
}

#[test]
fn settings_are_kept() {
    let processor = PhotoBorder::new(BorderType::Large, true, Some(vec![1, 2, 3]));
    assert_eq!(processor.border_type(), BorderType::Large);
    assert!(processor.show_exif());
    assert!(!PhotoBorder::new(BorderType::Small, false, None).show_exif());
}

#[test]
fn job_without_metadata_borders_and_names() {
    let processor = PhotoBorder::new(BorderType::Medium, false, None);
    let done = processor
        .process_image("shots/a.jpg", &picture(120, 60), &no_metadata(), Some("/out"))
        .unwrap();
    assert_eq!(done.output_path, "/out/a_border.jpg");
    assert!(done.overlay.is_none());
    assert_eq!(done.warning, None);
    assert_eq!((done.canvas.width(), done.canvas.height()), (128, 68));
    assert_eq!(done.canvas.get_pixel(0, 0), Some(WHITE));
    assert_eq!(done.canvas.get_pixel(3, 4), Some(WHITE));
    assert_eq!(done.canvas.get_pixel(4, 3), Some(WHITE));
    assert_eq!(done.canvas.get_pixel(4, 4), Some((0, 0, 3)));
    assert_eq!(done.canvas.get_pixel(123, 63), Some((119, 59, 3)));
    assert_eq!(done.canvas.get_pixel(124, 63), Some(WHITE));
    assert_eq!(done.canvas.get_pixel(123, 64), Some(WHITE));
    assert_eq!(done.canvas.get_pixel(127, 67), Some(WHITE));
}

#[test]
fn small_style_adds_only_a_bottom_strip() {
    let processor = PhotoBorder::new(BorderType::Small, false, None);
    let done = processor.process_image("a.png", &picture(200, 120), &no_metadata(), None).unwrap();
    assert_eq!(done.output_path, "a_border.png");
    assert_eq!((done.canvas.width(), done.canvas.height()), (200, 122));
    assert_eq!(done.canvas.get_pixel(0, 0), Some((0, 0, 3)));
    assert_eq!(done.canvas.get_pixel(199, 119), Some((199, 119, 3)));
    assert_eq!(done.canvas.get_pixel(0, 120), Some(WHITE));
    assert_eq!(done.canvas.get_pixel(199, 121), Some(WHITE));
}

#[test]
fn small_style_on_a_small_image_adds_nothing() {
    let processor = PhotoBorder::new(BorderType::Small, false, None);
    let done = processor.process_image("a.png", &picture(40, 30), &no_metadata(), None).unwrap();
    assert_eq!((done.canvas.width(), done.canvas.height()), (40, 30));
    assert_eq!(done.canvas.get_pixel(39, 29), Some((39, 29, 3)));
}

#[test]
fn alpha_is_dropped_before_the_border_is_added() {
    let buffer = image::RgbaImage::from_raw(1, 1, vec![9, 8, 7, 0]).unwrap();
    let processor = PhotoBorder::new(BorderType::Small, false, None);
    let done = processor
        .process_image("a.png", &image::DynamicImage::ImageRgba8(buffer), &no_metadata(), None)
        .unwrap();
    assert_eq!(done.canvas.into_raw(), vec![9, 8, 7]);
}

#[test]
fn a_path_without_extension_fails_the_job() {
    let processor = PhotoBorder::new(BorderType::Medium, false, None);
    match processor.process_image("shots/a", &picture(120, 60), &no_metadata(), None) {
        Err(PhotoBorderError::IoError(cause)) => assert_eq!(cause, "No file extension"),
        other => panic!("expected an I/O error, got {:?}", other),
    }
}

#[test]
fn metadata_is_not_looked_at_unless_shown() {
    let processor = PhotoBorder::new(BorderType::Medium, false, Some(vec![0; 8]));
    let unreadable = Err(PhotoBorderError::IoError("permission denied".to_string()));
    let done = processor.process_image("a.jpg", &picture(120, 60), &unreadable, None).unwrap();
    assert_eq!(done.warning, None);
    assert!(done.overlay.is_none());
}

#[test]
fn unreadable_file_is_only_a_warning() {
    let processor = PhotoBorder::new(BorderType::Medium, true, Some(smallest_font()));
    let unreadable = Err(PhotoBorderError::IoError("permission denied".to_string()));
    let done = processor.process_image("a.jpg", &picture(120, 60), &unreadable, None).unwrap();
    assert_eq!(
        done.warning,
        Some("Warning: Could not read EXIF data: Input/output error: permission denied".to_string())
    );
    assert!(done.overlay.is_none());
    assert_eq!(done.output_path, "a_border.jpg");
    assert_eq!((done.canvas.width(), done.canvas.height()), (128, 68));
}

#[test]
fn missing_metadata_is_only_a_warning() {
    let processor = PhotoBorder::new(BorderType::Medium, true, Some(smallest_font()));
    let done = processor
        .process_image("a.jpg", &picture(120, 60), &Ok(b"no metadata here".to_vec()), None)
        .unwrap();
    assert_eq!(
        done.warning,
        Some("Warning: Could not read EXIF data: EXIF reading error: Unknown image format".to_string())
    );
    assert!(done.overlay.is_none());
    assert_eq!(done.canvas.get_pixel(4, 4), Some((0, 0, 3)));
}

#[test]
fn a_bad_font_is_only_a_warning() {
    let processor = PhotoBorder::new(BorderType::Medium, true, Some(vec![1, 2, 3, 4]));
    let done = processor
        .process_image("a.jpg", &picture(120, 60), &Ok(file_with_iso()), None)
        .unwrap();
    assert_eq!(
        done.warning,
        Some("Warning: Could not draw EXIF text: Font error: Invalid font data".to_string())
    );
    assert!(done.overlay.is_none());
    assert_eq!(done.output_path, "a_border.jpg");
}

#[test]
fn without_a_font_the_text_is_skipped() {
    let processor = PhotoBorder::new(BorderType::Medium, true, None);
    let done = processor
        .process_image("a.jpg", &picture(120, 60), &Ok(file_with_iso()), None)
        .unwrap();
    assert_eq!(
        done.warning,
        Some("No font provided, skipping text rendering. Use -f flag to specify a font.".to_string())
    );
    assert!(done.overlay.is_none());
}

#[test]
fn text_goes_into_the_bottom_strip() {
    let processor = PhotoBorder::new(BorderType::Large, true, Some(smallest_font()));
    let done = processor
        .process_image("a.jpg", &picture(200, 100), &Ok(file_with_iso()), None)
        .unwrap();
    assert_eq!(done.warning, None);
    assert_eq!((done.canvas.width(), done.canvas.height()), (220, 120));
    let overlay = done.overlay.unwrap();
    assert_eq!(overlay.placement.text, "ISO 200");
    assert_eq!(overlay.placement.x, 10 + 20);
    assert_eq!(overlay.placement.y, 110 + 5);
    assert_eq!(overlay.placement.scale, 1);
    assert_eq!(overlay.placement.color, (64, 64, 64));
    assert_eq!(done.canvas.get_pixel(30, 115), Some(WHITE));
}

#[test]
fn prepared_text_for_a_record() {
    let processor = PhotoBorder::new(BorderType::Small, true, Some(smallest_font()));
    let record = ExifData {
        camera: Some("X100V".to_string()),
        iso: Some("ISO 160".to_string()),
        ..ExifData::default()
    };
    let overlay = processor.exif_text(&record, 1600, 2400, 0, 2374).unwrap().unwrap();
    assert_eq!(overlay.placement.text, "X100V | ISO 160");
    assert_eq!((overlay.placement.x, overlay.placement.y), (20, 2379));
    assert_eq!(overlay.placement.scale, 20);
}

#[test]
fn prepared_text_fails_on_a_bad_font_first() {
    let processor = PhotoBorder::new(BorderType::Small, true, Some(vec![0; 16]));
    let record = ExifData::default();
    assert!(matches!(
        processor.exif_text(&record, 10, 10, u32::MAX, u32::MAX),
        Err(PhotoBorderError::FontError(_))
    ));
    let processor = PhotoBorder::new(BorderType::Small, true, Some(smallest_font()));
    match processor.exif_text(&record, 10, 10, u32::MAX, 0) {
        Err(PhotoBorderError::ImageError(cause)) => {
            assert_eq!(cause, "Text position is out of range")
        }
        other => panic!("expected an image error, got {:?}", other),
    }
    assert!(PhotoBorder::new(BorderType::Small, true, None)
        .exif_text(&record, 10, 10, u32::MAX, 0)
        .unwrap()
        .is_none());
}

#[test]
fn the_same_job_twice_gives_the_same_canvas() {
    let processor = PhotoBorder::new(BorderType::Large, false, None);
    let first = processor.process_image("a.jpg", &picture(90, 70), &no_metadata(), None).unwrap();
    let second = processor.process_image("a.jpg", &picture(90, 70), &no_metadata(), None).unwrap();
    assert_eq!(first.output_path, second.output_path);
    assert_eq!(first.canvas.into_raw(), second.canvas.into_raw());
}

#[test]
fn text_step_alone() {
    let processor = PhotoBorder::new(BorderType::Medium, true, Some(smallest_font()));
    let (overlay, warning) = processor.text_step(&Ok(file_with_iso()), 800, 800, 50, 700);
    assert_eq!(warning, None);
    let overlay = overlay.unwrap();
    assert_eq!(overlay.placement.text, "ISO 200");
    assert_eq!((overlay.placement.x, overlay.placement.y), (70, 705));
    assert_eq!(overlay.placement.scale, 10);
}

#[test]
fn float_samples_fail_the_job() {
    let buffer: image::ImageBuffer<image::Rgb<f32>, Vec<f32>> =
        image::ImageBuffer::from_raw(1, 1, vec![0.25, 0.5, f32::NAN]).unwrap();
    let processor = PhotoBorder::new(BorderType::Medium, false, None);
    match processor.process_image(
        "a.jpg",
        &image::DynamicImage::ImageRgb32F(buffer),
        &no_metadata(),
        None,
    ) {
        Err(PhotoBorderError::ImageError(cause)) => assert_eq!(cause, "Unsupported pixel format"),
        other => panic!("expected an image error, got {:?}", other),
    }
}

#[test]
fn grey_images_are_bordered_too() {
    let buffer = image::GrayImage::from_raw(1, 1, vec![77]).unwrap();
    let processor = PhotoBorder::new(BorderType::Small, false, None);
    let done = processor
        .process_image("a.png", &image::DynamicImage::ImageLuma8(buffer), &no_metadata(), None)
        .unwrap();
    assert_eq!(done.canvas.into_raw(), vec![77, 77, 77]);
}
