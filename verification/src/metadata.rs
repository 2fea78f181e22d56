//! Camera metadata: which tags are read, how each becomes a field of the
//! record, and how the record is laid out as display lines.

use crate::error::ErrorView;
use crate::error::PhotoBorderError;
use crate::text::join;
use crate::text::joined;
use crate::text::trim_quotes;
use crate::text::trim_quotes_of;
use vstd::prelude::*;
use vstd::string::*;

verus! {

/// The tags of the primary image that the record is built from.
#[derive(Debug, Clone, Copy, PartialEq, Eq, Structural)]
pub enum MetadataTag {
    Make,
    Model,
    LensModel,
    FocalLength,
    FNumber,
    ExposureTime,
    PhotographicSensitivity,
}

/// `exif::Exif`: the parsed metadata of one image file. Nothing of its inside
/// is known here but what [`primary_fields`] says.
#[verifier::external_type_specification]
#[verifier::external_body]
pub struct ExExif(exif::Exif);

/// The display value of each tag of the primary image that `exif` holds.
pub uninterp spec fn primary_fields(exif: exif::Exif) -> Map<MetadataTag, Seq<char>>;

/// What `exif::Reader::read_from_container` makes of the bytes of an image
/// file: the display values of the primary image's tags, or the text of the
/// error that it reports.
pub uninterp spec fn container_reading(bytes: Seq<u8>) -> Result<
    Map<MetadataTag, Seq<char>>,
    Seq<char>,
>;

/// Calls `exif::Reader::read_from_container` on an in-memory file. Whether it
/// succeeds, what the parsed attributes then hold, and which error it reports
/// otherwise, is a function of the bytes alone. The error is handed on as the
/// text that its `Display` impl gives.
#[verifier::external_body]
fn read_container(bytes: &[u8]) -> (parsed: Result<exif::Exif, String>)
    ensures
        match parsed {
            Ok(exif) => container_reading(bytes@) == Ok::<Map<MetadataTag, Seq<char>>, Seq<char>>(
                primary_fields(exif),
            ),
            Err(cause) => container_reading(bytes@) == Err::<
                Map<MetadataTag, Seq<char>>,
                Seq<char>,
            >(cause@),
        },
{
    match exif::Reader::new().read_from_container(&mut std::io::Cursor::new(bytes)) {
        Ok(exif) => Ok(exif),
        Err(error) => Err(error.to_string()),
    }
}

/// Calls `exif::Exif::get_field` for a tag of the primary image and renders
/// the field with `exif::Field::display_value`. The result is `None` exactly
/// when the attributes hold no such field.
#[verifier::external_body]
fn field_display(exif: &exif::Exif, tag: MetadataTag) -> (value: Option<String>)
    ensures
        match value {
            Some(text) => primary_fields(*exif).contains_key(tag) && text@ == primary_fields(
                *exif,
            )[tag],
            None => !primary_fields(*exif).contains_key(tag),
        },
{
    let tag = match tag {
        MetadataTag::Make => exif::Tag::Make,
        MetadataTag::Model => exif::Tag::Model,
        MetadataTag::LensModel => exif::Tag::LensModel,
        MetadataTag::FocalLength => exif::Tag::FocalLength,
        MetadataTag::FNumber => exif::Tag::FNumber,
        MetadataTag::ExposureTime => exif::Tag::ExposureTime,
        MetadataTag::PhotographicSensitivity => exif::Tag::PhotographicSensitivity,
    };
    exif.get_field(tag, exif::In::PRIMARY).map(|field| field.display_value().to_string())
}

/// The characters of an optional string.
pub open spec fn text_of(value: Option<String>) -> Option<Seq<char>> {
    match value {
        Some(text) => Some(text@),
        None => None,
    }
}

/// The display values of the tags that were looked up, each as the metadata
/// container gave it.
#[derive(Debug)]
pub struct TagValues {
    pub make: Option<String>,
    pub model: Option<String>,
    pub lens_model: Option<String>,
    pub focal_length: Option<String>,
    pub f_number: Option<String>,
    pub exposure_time: Option<String>,
    pub sensitivity: Option<String>,
}

/// The mathematical value of [`TagValues`].
pub struct TagValuesView {
    pub make: Option<Seq<char>>,
    pub model: Option<Seq<char>>,
    pub lens_model: Option<Seq<char>>,
    pub focal_length: Option<Seq<char>>,
    pub f_number: Option<Seq<char>>,
    pub exposure_time: Option<Seq<char>>,
    pub sensitivity: Option<Seq<char>>,
}

impl View for TagValues {
    type V = TagValuesView;

    open spec fn view(&self) -> TagValuesView {
        TagValuesView {
            make: text_of(self.make),
            model: text_of(self.model),
            lens_model: text_of(self.lens_model),
            focal_length: text_of(self.focal_length),
            f_number: text_of(self.f_number),
            exposure_time: text_of(self.exposure_time),
            sensitivity: text_of(self.sensitivity),
        }
    }
}

/// The value under `tag`, if the map has one.
pub open spec fn lookup(fields: Map<MetadataTag, Seq<char>>, tag: MetadataTag) -> Option<
    Seq<char>,
> {
    if fields.contains_key(tag) {
        Some(fields[tag])
    } else {
        None
    }
}

impl TagValuesView {
    /// The looked-up values that a map of display values gives.
    pub open spec fn of_fields(fields: Map<MetadataTag, Seq<char>>) -> TagValuesView {
        TagValuesView {
            make: lookup(fields, MetadataTag::Make),
            model: lookup(fields, MetadataTag::Model),
            lens_model: lookup(fields, MetadataTag::LensModel),
            focal_length: lookup(fields, MetadataTag::FocalLength),
            f_number: lookup(fields, MetadataTag::FNumber),
            exposure_time: lookup(fields, MetadataTag::ExposureTime),
            sensitivity: lookup(fields, MetadataTag::PhotographicSensitivity),
        }
    }
}

/// The metadata of one photograph, ready for display. A field is `None` where
/// the photograph's metadata did not hold it.
#[derive(Debug)]
pub struct ExifData {
    /// Camera model.
    pub camera: Option<String>,
    /// Lens model.
    pub lens: Option<String>,
    /// Focal length, with its unit.
    pub focal_length: Option<String>,
    /// Aperture as an f-number.
    pub aperture: Option<String>,
    /// Exposure time, with its unit.
    pub shutter_speed: Option<String>,
    /// ISO sensitivity.
    pub iso: Option<String>,
    /// Date taken. Extraction leaves it empty.
    pub date_taken: Option<String>,
}

/// The mathematical value of [`ExifData`].
pub struct ExifView {
    pub camera: Option<Seq<char>>,
    pub lens: Option<Seq<char>>,
    pub focal_length: Option<Seq<char>>,
    pub aperture: Option<Seq<char>>,
    pub shutter_speed: Option<Seq<char>>,
    pub iso: Option<Seq<char>>,
    pub date_taken: Option<Seq<char>>,
}

impl View for ExifData {
    type V = ExifView;

    open spec fn view(&self) -> ExifView {
        ExifView {
            camera: text_of(self.camera),
            lens: text_of(self.lens),
            focal_length: text_of(self.focal_length),
            aperture: text_of(self.aperture),
            shutter_speed: text_of(self.shutter_speed),
            iso: text_of(self.iso),
            date_taken: text_of(self.date_taken),
        }
    }
}

/// The one-element sequence of a present value, the empty one of an absent.
pub open spec fn present(value: Option<Seq<char>>) -> Seq<Seq<char>> {
    match value {
        Some(text) => seq![text],
        None => Seq::empty(),
    }
}

/// `value` with `prefix` before it, where there is a value.
pub open spec fn prefixed(prefix: Seq<char>, value: Option<Seq<char>>) -> Option<Seq<char>> {
    match value {
        Some(text) => Some(prefix + text),
        None => None,
    }
}

/// `value` with `suffix` after it, where there is a value.
pub open spec fn suffixed(value: Option<Seq<char>>, suffix: Seq<char>) -> Option<Seq<char>> {
    match value {
        Some(text) => Some(text + suffix),
        None => None,
    }
}

/// `value` without surrounding quote characters, where there is a value.
pub open spec fn unquoted(value: Option<Seq<char>>) -> Option<Seq<char>> {
    match value {
        Some(text) => Some(trim_quotes(text)),
        None => None,
    }
}

impl ExifView {
    /// The record with no field present.
    pub open spec fn blank() -> ExifView {
        ExifView {
            camera: None,
            lens: None,
            focal_length: None,
            aperture: None,
            shutter_speed: None,
            iso: None,
            date_taken: None,
        }
    }

    /// The record that the looked-up tag values give.
    ///
    /// The camera is the model, and is present only where the make is present
    /// too. The date is never filled in.
    pub open spec fn of_tags(tags: TagValuesView) -> ExifView {
        ExifView {
            camera: if tags.make is Some {
                unquoted(tags.model)
            } else {
                None
            },
            lens: unquoted(tags.lens_model),
            focal_length: suffixed(tags.focal_length, "mm"@),
            aperture: prefixed("f/"@, tags.f_number),
            shutter_speed: suffixed(tags.exposure_time, "s"@),
            iso: prefixed("ISO "@, tags.sensitivity),
            date_taken: None,
        }
    }

    /// The record that a map of display values gives.
    pub open spec fn of_fields(fields: Map<MetadataTag, Seq<char>>) -> ExifView {
        Self::of_tags(TagValuesView::of_fields(fields))
    }

    /// The technical settings that are present: focal length, aperture,
    /// shutter speed, ISO, in this order.
    pub open spec fn settings(self) -> Seq<Seq<char>> {
        present(self.focal_length) + present(self.aperture) + present(self.shutter_speed)
            + present(self.iso)
    }

    /// The line of technical settings: none where no setting is present.
    pub open spec fn settings_line(self) -> Seq<Seq<char>> {
        if self.settings().len() > 0 {
            seq![joined(self.settings(), " \u{2022} "@)]
        } else {
            Seq::empty()
        }
    }

    /// The display lines: camera, lens, technical settings, date, each only
    /// where it is present.
    pub open spec fn display_lines(self) -> Seq<Seq<char>> {
        present(self.camera) + present(self.lens) + self.settings_line() + present(
            self.date_taken,
        )
    }
}

fn with_prefix(prefix: &str, value: &Option<String>) -> (text: Option<String>)
    ensures
        text_of(text) == prefixed(prefix@, text_of(*value)),
{
    match value {
        Some(raw) => Some(String::from_str(prefix).concat(raw.as_str())),
        None => None,
    }
}

fn with_suffix(value: &Option<String>, suffix: &str) -> (text: Option<String>)
    ensures
        text_of(text) == suffixed(text_of(*value), suffix@),
{
    match value {
        Some(raw) => Some(raw.clone().concat(suffix)),
        None => None,
    }
}

fn without_quotes(value: &Option<String>) -> (text: Option<String>)
    ensures
        text_of(text) == unquoted(text_of(*value)),
{
    match value {
        Some(raw) => Some(trim_quotes_of(raw.as_str())),
        None => None,
    }
}

fn push_present(lines: &mut Vec<String>, value: &Option<String>)
    ensures
        final(lines).deep_view() == old(lines).deep_view() + present(text_of(*value)),
{
    match value {
        Some(text) => {
            lines.push(text.clone());
            assert(lines.deep_view() =~= old(lines).deep_view() + seq![text@]);
        },
        None => {
            assert(lines.deep_view() =~= old(lines).deep_view() + Seq::empty());
        },
    }
}

impl Default for ExifData {
    fn default() -> (data: ExifData)
        ensures
            data@ == ExifView::blank(),
    {
        ExifData {
            camera: None,
            lens: None,
            focal_length: None,
            aperture: None,
            shutter_speed: None,
            iso: None,
            date_taken: None,
        }
    }
}

impl ExifData {
    /// Builds the record from the display values of the tags that were looked
    /// up.
    pub fn from_tags(tags: &TagValues) -> (data: ExifData)
        ensures
            data@ == ExifView::of_tags(tags@),
    {
        let camera = if tags.make.is_some() {
            without_quotes(&tags.model)
        } else {
            None
        };
        ExifData {
            camera,
            lens: without_quotes(&tags.lens_model),
            focal_length: with_suffix(&tags.focal_length, "mm"),
            aperture: with_prefix("f/", &tags.f_number),
            shutter_speed: with_suffix(&tags.exposure_time, "s"),
            iso: with_prefix("ISO ", &tags.sensitivity),
            date_taken: None,
        }
    }

    /// Looks up the tags of the primary image in parsed metadata and builds
    /// the record from them. A tag that is missing leaves its field empty.
    pub fn extract(exif: &exif::Exif) -> (data: ExifData)
        ensures
            data@ == ExifView::of_fields(primary_fields(*exif)),
    {
        let tags = TagValues {
            make: field_display(exif, MetadataTag::Make),
            model: field_display(exif, MetadataTag::Model),
            lens_model: field_display(exif, MetadataTag::LensModel),
            focal_length: field_display(exif, MetadataTag::FocalLength),
            f_number: field_display(exif, MetadataTag::FNumber),
            exposure_time: field_display(exif, MetadataTag::ExposureTime),
            sensitivity: field_display(exif, MetadataTag::PhotographicSensitivity),
        };
        Self::from_tags(&tags)
    }

    /// Reads the record from the bytes of an image file.
    ///
    /// Fails with an `ExifError` exactly when the file holds no metadata that
    /// can be parsed; a tag that is merely missing is no error.
    pub fn from_file(bytes: &[u8]) -> (read: Result<ExifData, PhotoBorderError>)
        ensures
            match container_reading(bytes@) {
                Ok(fields) => read matches Ok(data) && data@ == ExifView::of_fields(fields),
                Err(cause) => read matches Err(error) && error@ == ErrorView::ExifError(cause),
            },
    {
        match read_container(bytes) {
            Ok(exif) => Ok(Self::extract(&exif)),
            Err(cause) => Err(PhotoBorderError::ExifError(cause)),
        }
    }

    /// Lays the record out as display lines: the camera, the lens, one line
    /// with the technical settings that are present, joined by a bullet, and
    /// the date. A field that is absent gives no line.
    pub fn format_for_display(&self) -> (lines: Vec<String>)
        ensures
            lines.deep_view() == self@.display_lines(),
            self@ == ExifView::blank() ==> lines@.len() == 0,
            self@.camera is None && self@.lens is None && self@.focal_length is None
                && self@.shutter_speed is None && self@.date_taken is None ==> (
            match (self@.aperture, self@.iso) {
                (Some(aperture), Some(iso)) => lines.deep_view() == seq![
                    aperture + " \u{2022} "@ + iso,
                ],
                _ => true,
            }),
    {
        let mut lines: Vec<String> = Vec::new();
        assert(lines.deep_view() =~= Seq::<Seq<char>>::empty());
        push_present(&mut lines, &self.camera);
        push_present(&mut lines, &self.lens);

        let mut settings: Vec<String> = Vec::new();
        assert(settings.deep_view() =~= Seq::<Seq<char>>::empty());
        push_present(&mut settings, &self.focal_length);
        push_present(&mut settings, &self.aperture);
        push_present(&mut settings, &self.shutter_speed);
        push_present(&mut settings, &self.iso);
        assert(settings.deep_view() =~= self@.settings());

        let ghost before = lines.deep_view();
        if settings.len() > 0 {
            let line = join(&settings, " \u{2022} ");
            lines.push(line);
            assert(lines.deep_view() =~= before + self@.settings_line());
        } else {
            assert(lines.deep_view() =~= before + self@.settings_line());
        }
        push_present(&mut lines, &self.date_taken);
        proof {
            assert(lines.deep_view() =~= self@.display_lines());
            lemma_blank_has_no_lines();
            if self@.camera is None && self@.lens is None && self@.focal_length is None
                && self@.shutter_speed is None && self@.date_taken is None
                && self@.aperture is Some && self@.iso is Some {
                lemma_aperture_and_iso_line(self@);
            }
        }
        lines
    }
}

/// A record with no field present has no display line.
pub proof fn lemma_blank_has_no_lines()
    ensures
        ExifView::blank().display_lines() == Seq::<Seq<char>>::empty(),
{
    assert(ExifView::blank().settings() =~= Seq::<Seq<char>>::empty());
    assert(ExifView::blank().display_lines() =~= Seq::<Seq<char>>::empty());
}

/// A record in which only the aperture and the ISO value are present has one
/// display line: the two, with a bullet between them.
pub proof fn lemma_aperture_and_iso_line(record: ExifView)
    requires
        record.camera is None,
        record.lens is None,
        record.focal_length is None,
        record.shutter_speed is None,
        record.date_taken is None,
        record.aperture is Some,
        record.iso is Some,
    ensures
        record.display_lines() == seq![
            record.aperture->0 + " \u{2022} "@ + record.iso->0,
        ],
{
    let settings = record.settings();
    assert(settings =~= seq![record.aperture->0, record.iso->0]);
    assert(settings.drop_last() =~= seq![record.aperture->0]);
    assert(joined(settings.drop_last(), " \u{2022} "@) == record.aperture->0);
    assert(joined(settings, " \u{2022} "@) == record.aperture->0 + " \u{2022} "@ + record.iso->0);
    assert(record.display_lines() =~= seq![
        record.aperture->0 + " \u{2022} "@ + record.iso->0,
    ]);
}

/// Metadata that holds only an f-number and a sensitivity is displayed as the
/// single line `f/<f-number> • ISO <sensitivity>`.
pub proof fn lemma_f_number_and_sensitivity_line(tags: TagValuesView)
    requires
        tags.model is None,
        tags.lens_model is None,
        tags.focal_length is None,
        tags.exposure_time is None,
        tags.f_number is Some,
        tags.sensitivity is Some,
    ensures
        ExifView::of_tags(tags).display_lines() == seq![
            "f/"@ + tags.f_number->0 + " \u{2022} "@ + "ISO "@ + tags.sensitivity->0,
        ],
{
    let record = ExifView::of_tags(tags);
    lemma_aperture_and_iso_line(record);
    assert(record.aperture->0 + " \u{2022} "@ + record.iso->0 =~= "f/"@ + tags.f_number->0
        + " \u{2022} "@ + "ISO "@ + tags.sensitivity->0);
}

} // verus!
