use schnapsshot::error::PhotoBorderError;
use schnapsshot::metadata::ExifData;
use schnapsshot::metadata::TagValues;

fn no_tags() -> TagValues {
    TagValues {
        make: None,
        model: None,
        lens_model: None,
        focal_length: None,
        f_number: None,
        exposure_time: None,
        sensitivity: None,
    }
}

fn text(value: &str) -> Option<String> {
    Some(value.to_string())
}

/// One field of a TIFF directory: the tag, the type, the count and the data.
struct Field {
    tag: u16,
    kind: u16,
    count: u32,
    data: Vec<u8>,
}

fn ascii(tag: u16, value: &str) -> Field {
    let mut data = value.as_bytes().to_vec();
    data.push(0);
    Field { tag, kind: 2, count: data.len() as u32, data }
}

fn short(tag: u16, value: u16) -> Field {
    Field { tag, kind: 3, count: 1, data: value.to_le_bytes().to_vec() }
}

fn rational(tag: u16, numerator: u32, denominator: u32) -> Field {
    let mut data = numerator.to_le_bytes().to_vec();
    data.extend_from_slice(&denominator.to_le_bytes());
    Field { tag, kind: 5, count: 1, data }
}

fn directory_len(fields: usize) -> usize {
    2 + 12 * fields + 4
}

fn write_directory(out: &mut Vec<u8>, fields: &[Field], mut data_at: usize, blobs: &mut Vec<u8>) {
    out.extend_from_slice(&(fields.len() as u16).to_le_bytes());
    for field in fields {
        out.extend_from_slice(&field.tag.to_le_bytes());
        out.extend_from_slice(&field.kind.to_le_bytes());
        out.extend_from_slice(&field.count.to_le_bytes());
        if field.data.len() <= 4 {
            let mut inline = field.data.clone();
            inline.resize(4, 0);
            out.extend_from_slice(&inline);
        } else {
            out.extend_from_slice(&(data_at as u32).to_le_bytes());
            blobs.extend_from_slice(&field.data);
            data_at += field.data.len();
        }
    }
    out.extend_from_slice(&0u32.to_le_bytes());
}

fn blob_len(fields: &[Field]) -> usize {
    fields.iter().filter(|field| field.data.len() > 4).map(|field| field.data.len()).sum()
}

/// A little-endian TIFF file with the given fields in its first directory and
/// in its Exif directory.
fn tiff(mut primary: Vec<Field>, exif: Vec<Field>) -> Vec<u8> {
    let primary_at = 8;
    let exif_at = primary_at + directory_len(primary.len() + 1);
    let primary_blobs_at = exif_at + directory_len(exif.len());
    let exif_blobs_at = primary_blobs_at + blob_len(&primary);
    primary.push(Field { tag: 0x8769, kind: 4, count: 1, data: (exif_at as u32).to_le_bytes().to_vec() });

    let mut out = vec![0x49, 0x49, 0x2a, 0x00, 0x08, 0x00, 0x00, 0x00];
    let mut blobs = Vec::new();
    write_directory(&mut out, &primary, primary_blobs_at, &mut blobs);
    write_directory(&mut out, &exif, exif_blobs_at, &mut blobs);
    out.extend_from_slice(&blobs);
    out
}

fn full_file() -> Vec<u8> {
    tiff(
        vec![ascii(0x010f, "Canon"), ascii(0x0110, "Canon EOS R5")],
        vec![
            rational(0x829a, 1, 125),
            rational(0x829d, 28, 10),
            short(0x8827, 400),
            rational(0x920a, 50, 1),
            ascii(0xa434, "RF50mm F1.8 STM"),
        ],
    )
}

#[test]
fn record_without_fields_has_no_lines() {
    let lines = ExifData::default().format_for_display();
    assert!(lines.is_empty());
    assert!(ExifData::from_tags(&no_tags()).format_for_display().is_empty());
}

#[test]
fn aperture_and_iso_alone_give_one_line() {
    let record = ExifData { aperture: text("f/2.8"), iso: text("ISO 400"), ..ExifData::default() };
    assert_eq!(record.format_for_display(), vec!["f/2.8 \u{2022} ISO 400".to_string()]);
}

#[test]
fn f_number_and_sensitivity_alone_give_one_line() {
    let tags = TagValues { f_number: text("2.8"), sensitivity: text("400"), ..no_tags() };
    let record = ExifData::from_tags(&tags);
    assert_eq!(record.format_for_display(), vec!["f/2.8 \u{2022} ISO 400".to_string()]);
}

#[test]
fn lines_come_in_a_fixed_order() {
    let record = ExifData {
        camera: text("EOS R5"),
        lens: text("RF50mm"),
        focal_length: text("50mm"),
        aperture: text("f/1.8"),
        shutter_speed: text("1/250s"),
        iso: text("ISO 100"),
        date_taken: text("2024-05-01"),
    };
    assert_eq!(
        record.format_for_display(),
        vec![
            "EOS R5".to_string(),
            "RF50mm".to_string(),
            "50mm \u{2022} f/1.8 \u{2022} 1/250s \u{2022} ISO 100".to_string(),
            "2024-05-01".to_string(),
        ]
    );
}

#[test]
fn absent_fields_leave_no_blank_line() {
    let record = ExifData {
        lens: text("RF50mm"),
        shutter_speed: text("1/250s"),
        ..ExifData::default()
    };
    assert_eq!(record.format_for_display(), vec!["RF50mm".to_string(), "1/250s".to_string()]);
}

#[test]
fn an_empty_string_is_a_present_field() {
    let record = ExifData { camera: text(""), focal_length: text(""), ..ExifData::default() };
    assert_eq!(record.format_for_display(), vec![String::new(), String::new()]);
}

#[test]
fn camera_needs_make_and_model() {
    let only_model = TagValues { model: text("\"EOS R5\""), ..no_tags() };
    assert_eq!(ExifData::from_tags(&only_model).camera, None);
    let only_make = TagValues { make: text("\"Canon\""), ..no_tags() };
    assert_eq!(ExifData::from_tags(&only_make).camera, None);
    let both = TagValues { make: text("\"Canon\""), model: text("\"EOS R5\""), ..no_tags() };
    assert_eq!(ExifData::from_tags(&both).camera, text("EOS R5"));
}

#[test]
fn each_tag_gets_its_own_dress() {
    let tags = TagValues {
        make: text("\"NIKON\""),
        model: text("\"Z 6\""),
        lens_model: text("\"NIKKOR Z 24-70mm f/4 S\""),
        focal_length: text("35"),
        f_number: text("4"),
        exposure_time: text("1/60"),
        sensitivity: text("800"),
    };
    let record = ExifData::from_tags(&tags);
    assert_eq!(record.camera, text("Z 6"));
    assert_eq!(record.lens, text("NIKKOR Z 24-70mm f/4 S"));
    assert_eq!(record.focal_length, text("35mm"));
    assert_eq!(record.aperture, text("f/4"));
    assert_eq!(record.shutter_speed, text("1/60s"));
    assert_eq!(record.iso, text("ISO 800"));
    assert_eq!(record.date_taken, None);
}

#[test]
fn record_is_read_from_the_bytes_of_a_file() {
    let record = ExifData::from_file(&full_file()).unwrap();
    assert_eq!(record.camera, text("Canon EOS R5"));
    assert_eq!(record.lens, text("RF50mm F1.8 STM"));
    assert_eq!(record.focal_length, text("50mm"));
    assert_eq!(record.aperture, text("f/2.8"));
    assert_eq!(record.shutter_speed, text("1/125s"));
    assert_eq!(record.iso, text("ISO 400"));
    assert_eq!(record.date_taken, None);
    assert_eq!(
        record.format_for_display(),
        vec![
            "Canon EOS R5".to_string(),
            "RF50mm F1.8 STM".to_string(),
            "50mm \u{2022} f/2.8 \u{2022} 1/125s \u{2022} ISO 400".to_string(),
        ]
    );
}

#[test]
fn a_file_with_few_tags_gives_few_fields() {
    let file = tiff(vec![ascii(0x0110, "Lonely Model")], vec![short(0x8827, 100)]);
    let record = ExifData::from_file(&file).unwrap();
    assert_eq!(record.camera, None);
    assert_eq!(record.lens, None);
    assert_eq!(record.iso, text("ISO 100"));
    assert_eq!(record.format_for_display(), vec!["ISO 100".to_string()]);
}

#[test]
fn the_date_is_not_read() {
    let file = tiff(Vec::new(), vec![ascii(0x9003, "2024:05:01 10:00:00")]);
    let record = ExifData::from_file(&file).unwrap();
    assert_eq!(record.date_taken, None);
    assert!(record.format_for_display().is_empty());
}

#[test]
fn a_file_without_metadata_is_an_exif_error() {
    match ExifData::from_file(b"this is no image at all") {
        Err(PhotoBorderError::ExifError(cause)) => assert_eq!(cause, "Unknown image format"),
        other => panic!("expected an EXIF error, got {:?}", other),
    }
    assert!(matches!(ExifData::from_file(&[]), Err(PhotoBorderError::ExifError(_))));
}

#[test]
fn parsed_metadata_can_be_looked_up_directly() {
    let parsed = exif::Reader::new()
        .read_from_container(&mut std::io::Cursor::new(full_file()))
        .unwrap();
    let record = ExifData::extract(&parsed);
    assert_eq!(record.camera, text("Canon EOS R5"));
    assert_eq!(record.aperture, text("f/2.8"));
}
