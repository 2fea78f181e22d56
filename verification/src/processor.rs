//! The work on one photograph: border, metadata text and output path.

use crate::border::BorderType;
use crate::canvas::decoded_color;
use crate::canvas::decoded_dimensions;
use crate::canvas::decoded_format;
use crate::canvas::decoded_raster;
use crate::canvas::PixelCanvas;
use crate::canvas::PixelFormat;
use crate::canvas::Raster;
use crate::error::ErrorView;
use crate::error::PhotoBorderError;
use crate::metadata::container_reading;
use crate::metadata::ExifData;
use crate::metadata::ExifView;
use crate::metadata::text_of;
use crate::output::derive_output_path;
use crate::output::output_path;
use crate::output::str_of;
use crate::overlay::font_parses;
use crate::overlay::OverlayView;
use crate::overlay::PlacementView;
use crate::overlay::TextOverlay;
use crate::overlay::TextPlacement;
use vstd::prelude::*;
use vstd::string::*;

verus! {

/// The settings of a run: the border style, whether metadata is written into
/// the border, and the font to write it with.
#[derive(Debug)]
pub struct PhotoBorder {
    border_type: BorderType,
    show_exif: bool,
    font_data: Option<Vec<u8>>,
}

/// The mathematical value of a [`PhotoBorder`].
pub struct PhotoBorderView {
    pub border_type: BorderType,
    pub show_exif: bool,
    pub font_data: Option<Seq<u8>>,
}

/// The bytes of an optional buffer.
pub open spec fn bytes_of(data: Option<Vec<u8>>) -> Option<Seq<u8>> {
    match data {
        Some(bytes) => Some(bytes@),
        None => None,
    }
}

impl View for PhotoBorder {
    type V = PhotoBorderView;

    closed spec fn view(&self) -> PhotoBorderView {
        PhotoBorderView {
            border_type: self.border_type,
            show_exif: self.show_exif,
            font_data: bytes_of(self.font_data),
        }
    }
}

/// What a file's metadata was read from: the bytes of the file, or the reason
/// why they could not be had.
pub open spec fn source_view(source: Result<Vec<u8>, PhotoBorderError>) -> Result<
    Seq<u8>,
    ErrorView,
> {
    match source {
        Ok(bytes) => Ok(bytes@),
        Err(error) => Err(error@),
    }
}

/// The record that a metadata source gives, or the reason why it gives none.
pub open spec fn record_of(source: Result<Seq<u8>, ErrorView>) -> Result<ExifView, ErrorView> {
    match source {
        Err(error) => Err(error),
        Ok(bytes) => match container_reading(bytes) {
            Ok(fields) => Ok(ExifView::of_fields(fields)),
            Err(cause) => Err(ErrorView::ExifError(cause)),
        },
    }
}

/// What the metadata step of a job yields: the text to write, if any, and a
/// warning, if the text had to be left out.
pub struct TextStep {
    pub overlay: Option<OverlayView>,
    pub warning: Option<Seq<char>>,
}

/// The mathematical value of a [`ProcessedImage`].
pub struct ProcessedView {
    pub canvas: Raster,
    pub output_path: Seq<char>,
    pub overlay: Option<OverlayView>,
    pub warning: Option<Seq<char>>,
}

impl PhotoBorderView {
    /// The thickness `(top, right, bottom, left)` of the border for a source
    /// of the given size.
    pub open spec fn insets(self, source: Raster) -> (int, int, int, int) {
        self.border_type.border_size(source.width as int, source.height as int)
    }

    /// The text to write for a record, on a canvas of the given size, the
    /// upper left corner of the bottom strip at `(x_offset, y_offset)`.
    ///
    /// Without a font there is nothing to write. A font that does not parse
    /// is an error, and so is a position beyond the renderer's coordinates.
    pub open spec fn exif_text(
        self,
        record: ExifView,
        canvas_width: int,
        canvas_height: int,
        x_offset: int,
        y_offset: int,
    ) -> Result<Option<OverlayView>, ErrorView> {
        match self.font_data {
            None => Ok(None),
            Some(font) => if !font_parses(font) {
                Err(ErrorView::FontError("Invalid font data"@))
            } else if !PlacementView::reachable(x_offset, y_offset) {
                Err(ErrorView::ImageError("Text position is out of range"@))
            } else {
                Ok(
                    Some(
                        OverlayView {
                            placement: PlacementView::of_lines(
                                record.display_lines(),
                                canvas_width,
                                canvas_height,
                                x_offset,
                                y_offset,
                            ),
                            font,
                        },
                    ),
                )
            },
        }
    }

    /// The metadata step of a job. With metadata display switched off it
    /// yields nothing. Else a failure to read the metadata or to prepare the
    /// text becomes a warning, never an error.
    pub open spec fn text_step(
        self,
        source: Result<Seq<u8>, ErrorView>,
        canvas_width: int,
        canvas_height: int,
        x_offset: int,
        y_offset: int,
    ) -> TextStep {
        if !self.show_exif {
            TextStep { overlay: None, warning: None }
        } else {
            match record_of(source) {
                Err(error) => TextStep {
                    overlay: None,
                    warning: Some("Warning: Could not read EXIF data: "@ + error.message()),
                },
                Ok(record) => match self.exif_text(
                    record,
                    canvas_width,
                    canvas_height,
                    x_offset,
                    y_offset,
                ) {
                    Err(error) => TextStep {
                        overlay: None,
                        warning: Some("Warning: Could not draw EXIF text: "@ + error.message()),
                    },
                    Ok(None) => TextStep {
                        overlay: None,
                        warning: Some(
                            "No font provided, skipping text rendering. Use -f flag to specify a font."@,
                        ),
                    },
                    Ok(Some(overlay)) => TextStep { overlay: Some(overlay), warning: None },
                },
            }
        }
    }

    /// The whole job on one photograph, decoded to the samples of `format`
    /// that `source` renders as RGB.
    ///
    /// A source whose samples are no integers, and one that is too large to
    /// be bordered, is an `ImageError`; an input path that gives no output
    /// path is an `IoError`. Else the job yields the bordered canvas, the
    /// output path, and what the metadata step yields for a strip that begins
    /// at the left inset, below the source.
    pub open spec fn processed(
        self,
        input_path: Seq<char>,
        format: PixelFormat,
        source: Raster,
        metadata: Result<Seq<u8>, ErrorView>,
        output_dir: Option<Seq<char>>,
    ) -> Result<ProcessedView, ErrorView> {
        let insets = self.insets(source);
        if !format.has_integer_samples() {
            Err(ErrorView::ImageError("Unsupported pixel format"@))
        } else if !PixelCanvas::can_border(source.width as int, source.height as int, insets) {
            Err(ErrorView::ImageError("Image dimensions are too large"@))
        } else {
            match output_path(input_path, output_dir) {
                Err(error) => Err(error),
                Ok(path) => {
                    let framed = source.bordered(insets);
                    let step = self.text_step(
                        metadata,
                        framed.width as int,
                        framed.height as int,
                        insets.3,
                        framed.height - insets.2,
                    );
                    Ok(
                        ProcessedView {
                            canvas: framed,
                            output_path: path,
                            overlay: step.overlay,
                            warning: step.warning,
                        },
                    )
                },
            }
        }
    }
}

/// The result of the work on one photograph.
#[derive(Debug)]
pub struct ProcessedImage {
    /// The photograph inside its border, without text.
    pub canvas: PixelCanvas,
    /// Where the result is to be written.
    pub output_path: String,
    /// The text to write into the bottom strip, if any.
    pub overlay: Option<TextOverlay>,
    /// A note for the user on metadata text that was left out.
    pub warning: Option<String>,
}

/// The value of an optional overlay.
pub open spec fn overlay_of(overlay: Option<TextOverlay>) -> Option<OverlayView> {
    match overlay {
        Some(made) => Some(made@),
        None => None,
    }
}

impl View for ProcessedImage {
    type V = ProcessedView;

    open spec fn view(&self) -> ProcessedView {
        ProcessedView {
            canvas: self.canvas@,
            output_path: self.output_path@,
            overlay: overlay_of(self.overlay),
            warning: text_of(self.warning),
        }
    }
}

fn copy_bytes(data: &Vec<u8>) -> (copy: Vec<u8>)
    ensures
        copy@ == data@,
{
    let mut copy: Vec<u8> = Vec::new();
    let mut k: usize = 0;
    while k < data.len()
        invariant
            k <= data.len(),
            copy@ == data@.take(k as int),
        decreases data.len() - k,
    {
        copy.push(data[k]);
        assert(copy@ =~= data@.take(k + 1));
        k += 1;
    }
    assert(data@.take(k as int) =~= data@);
    copy
}

impl PhotoBorder {
    /// Makes the settings of a run. `font_data` holds the bytes of a font
    /// file; without it no text is written.
    pub fn new(border_type: BorderType, show_exif: bool, font_data: Option<Vec<u8>>) -> (made:
        PhotoBorder)
        ensures
            made@ == (PhotoBorderView {
                border_type,
                show_exif,
                font_data: bytes_of(font_data),
            }),
    {
        PhotoBorder { border_type, show_exif, font_data }
    }

    /// The border style.
    pub fn border_type(&self) -> (style: BorderType)
        ensures
            style == self@.border_type,
    {
        self.border_type
    }

    /// Whether metadata is written into the border.
    pub fn show_exif(&self) -> (shown: bool)
        ensures
            shown == self@.show_exif,
    {
        self.show_exif
    }

    /// Derives the output path for an input path: `<stem>_border.<extension>`,
    /// in `output_dir` if there is one, else beside the input. Fails where the
    /// input path has no file stem, and where it has no extension.
    pub fn generate_output_path(&self, input_path: &str, output_dir: Option<&str>) -> (derived:
        Result<String, PhotoBorderError>)
        ensures
            match output_path(input_path@, str_of(output_dir)) {
                Ok(path) => derived matches Ok(text) && text@ == path,
                Err(error) => derived matches Err(reason) && reason@ == error,
            },
    {
        derive_output_path(input_path, output_dir)
    }

    /// Prepares the metadata text for a canvas of the given size, the upper
    /// left corner of the bottom strip at `(x_offset, y_offset)`.
    pub fn exif_text(
        &self,
        exif_data: &ExifData,
        canvas_width: u32,
        canvas_height: u32,
        x_offset: u32,
        y_offset: u32,
    ) -> (prepared: Result<Option<TextOverlay>, PhotoBorderError>)
        ensures
            match self@.exif_text(
                exif_data@,
                canvas_width as int,
                canvas_height as int,
                x_offset as int,
                y_offset as int,
            ) {
                Ok(overlay) => prepared matches Ok(made) && overlay_of(made) == overlay,
                Err(error) => prepared matches Err(reason) && reason@ == error,
            },
    {
        let font_data = match &self.font_data {
            Some(data) => copy_bytes(data),
            None => {
                return Ok(None);
            },
        };
        let lines = exif_data.format_for_display();
        let placed = TextPlacement::of_lines(
            &lines,
            canvas_width,
            canvas_height,
            x_offset,
            y_offset,
        );
        match placed {
            None => {
                if TextOverlay::font_is_valid(font_data) {
                    Err(
                        PhotoBorderError::ImageError(
                            String::from_str("Text position is out of range"),
                        ),
                    )
                } else {
                    Err(PhotoBorderError::FontError(String::from_str("Invalid font data")))
                }
            },
            Some(placement) => match TextOverlay::with_font(placement, font_data) {
                Some(overlay) => Ok(Some(overlay)),
                None => Err(PhotoBorderError::FontError(String::from_str("Invalid font data"))),
            },
        }
    }

    /// The metadata step of a job: reads the record from the file's bytes and
    /// prepares the text. Whatever fails becomes a warning.
    pub fn text_step(
        &self,
        metadata: &Result<Vec<u8>, PhotoBorderError>,
        canvas_width: u32,
        canvas_height: u32,
        x_offset: u32,
        y_offset: u32,
    ) -> (step: (Option<TextOverlay>, Option<String>))
        ensures
            (TextStep { overlay: overlay_of(step.0), warning: text_of(step.1) })
                == self@.text_step(
                source_view(*metadata),
                canvas_width as int,
                canvas_height as int,
                x_offset as int,
                y_offset as int,
            ),
    {
        if !self.show_exif {
            return (None, None);
        }
        let read = match metadata {
            Ok(bytes) => ExifData::from_file(bytes.as_slice()),
            Err(error) => {
                let warning = String::from_str("Warning: Could not read EXIF data: ").concat(
                    error.to_string().as_str(),
                );
                return (None, Some(warning));
            },
        };
        match read {
            Err(error) => {
                let warning = String::from_str("Warning: Could not read EXIF data: ").concat(
                    error.to_string().as_str(),
                );
                (None, Some(warning))
            },
            Ok(exif_data) => match self.exif_text(
                &exif_data,
                canvas_width,
                canvas_height,
                x_offset,
                y_offset,
            ) {
                Err(error) => {
                    let warning = String::from_str("Warning: Could not draw EXIF text: ").concat(
                        error.to_string().as_str(),
                    );
                    (None, Some(warning))
                },
                Ok(None) => (
                    None,
                    Some(
                        String::from_str(
                            "No font provided, skipping text rendering. Use -f flag to specify a font.",
                        ),
                    ),
                ),
                Ok(Some(overlay)) => (Some(overlay), None),
            },
        }
    }

    /// Does the work on one photograph: puts the border round the decoded
    /// image, prepares the metadata text if it is asked for, and derives the
    /// output path.
    ///
    /// `metadata` holds the bytes of the image file, or the reason why they
    /// could not be read; it is looked at only where metadata is shown.
    pub fn process_image(
        &self,
        input_path: &str,
        image: &image::DynamicImage,
        metadata: &Result<Vec<u8>, PhotoBorderError>,
        output_dir: Option<&str>,
    ) -> (done: Result<ProcessedImage, PhotoBorderError>)
        ensures
            match self@.processed(
                input_path@,
                decoded_format(*image),
                decoded_raster(*image),
                source_view(*metadata),
                str_of(output_dir),
            ) {
                Ok(result) => done matches Ok(made) && made@ == result,
                Err(error) => done matches Err(reason) && reason@ == error,
            },
    {
        if !decoded_color(image).check_integer_samples() {
            return Err(PhotoBorderError::ImageError(String::from_str("Unsupported pixel format")));
        }
        let size = decoded_dimensions(image);
        let width: u32 = size.0;
        let height: u32 = size.1;
        let insets = self.border_type.get_border_size(width, height);
        if !PixelCanvas::check_can_border(width, height, insets) {
            return Err(
                PhotoBorderError::ImageError(String::from_str("Image dimensions are too large")),
            );
        }
        proof {
            let w = width as int;
            let h = height as int;
            let nw = w + insets.3 + insets.1;
            let nh = h + insets.0 + insets.2;
            assert(3 * w * h <= 3 * nw * nh && 3 * w <= 3 * nw) by (nonlinear_arith)
                requires
                    0 <= w <= nw,
                    0 <= h <= nh,
            ;
        }
        let output_path = match derive_output_path(input_path, output_dir) {
            Ok(path) => path,
            Err(error) => {
                return Err(error);
            },
        };
        let source = PixelCanvas::flatten(image);
        let canvas = PixelCanvas::compose(&source, insets);
        let new_width: u32 = canvas.width();
        let new_height: u32 = canvas.height();
        let step = self.text_step(
            metadata,
            new_width,
            new_height,
            insets.3,
            new_height - insets.2,
        );
        Ok(ProcessedImage { canvas, output_path, overlay: step.0, warning: step.1 })
    }
}

/// The canvas of a job depends on the source and the border style alone:
/// two jobs on equal sources with the same style yield equal canvases,
/// whatever their paths and their metadata are.
pub proof fn lemma_same_source_same_canvas(
    config: PhotoBorderView,
    format: PixelFormat,
    source: Raster,
    first_path: Seq<char>,
    first_metadata: Result<Seq<u8>, ErrorView>,
    first_dir: Option<Seq<char>>,
    second_path: Seq<char>,
    second_metadata: Result<Seq<u8>, ErrorView>,
    second_dir: Option<Seq<char>>,
)
    requires
        config.processed(first_path, format, source, first_metadata, first_dir) is Ok,
        config.processed(second_path, format, source, second_metadata, second_dir) is Ok,
    ensures
        config.processed(first_path, format, source, first_metadata, first_dir)->Ok_0.canvas
            == config.processed(second_path, format, source, second_metadata, second_dir)->Ok_0.canvas,
        config.processed(first_path, format, source, first_metadata, first_dir)->Ok_0.canvas
            == source.bordered(config.insets(source)),
{
}

/// A failure of the metadata step never fails the job: whether a job
/// succeeds does not depend on the metadata, nor on whether it is shown.
pub proof fn lemma_metadata_never_fails_a_job(
    config: PhotoBorderView,
    other: PhotoBorderView,
    input_path: Seq<char>,
    format: PixelFormat,
    source: Raster,
    metadata: Result<Seq<u8>, ErrorView>,
    other_metadata: Result<Seq<u8>, ErrorView>,
    output_dir: Option<Seq<char>>,
)
    requires
        config.border_type == other.border_type,
    ensures
        config.processed(input_path, format, source, metadata, output_dir) is Ok
            <==> other.processed(input_path, format, source, other_metadata, output_dir) is Ok,
{
}

} // verus!
