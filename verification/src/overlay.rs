//! Where and how the metadata line is written into the border, and the font
//! it is written with.

use crate::border::min_dimension;
use crate::canvas::Rgb;
use crate::text::join;
use crate::text::joined;
use vstd::prelude::*;
use vstd::string::*;

verus! {

/// `rusttype::Font`: a parsed font. Nothing of its inside is known here but
/// what [`font_source`] says.
#[verifier::external_type_specification]
#[verifier::external_body]
pub struct ExFont<'a>(rusttype::Font<'a>);

/// The bytes that a font was parsed from.
pub uninterp spec fn font_source(font: rusttype::Font<'static>) -> Seq<u8>;

/// Whether `rusttype::Font::try_from_vec` accepts the bytes as a font.
pub uninterp spec fn font_parses(data: Seq<u8>) -> bool;

/// Calls `rusttype::Font::try_from_vec`, which returns `None` for data that is
/// no font and else a font that owns the data.
#[verifier::external_body]
fn font_from_vec(data: Vec<u8>) -> (font: Option<rusttype::Font<'static>>)
    ensures
        font is Some <==> font_parses(data@),
        font matches Some(parsed) ==> font_source(parsed) == data@,
{
    rusttype::Font::try_from_vec(data)
}

/// The colour of the text: a dark grey.
pub open spec fn text_color() -> Rgb {
    (64u8, 64u8, 64u8)
}

/// A request to write one line of text onto a canvas.
#[derive(Debug)]
pub struct TextPlacement {
    /// The text, on one line.
    pub text: String,
    /// Horizontal position of the text's origin.
    pub x: i32,
    /// Vertical position of the text's origin.
    pub y: i32,
    /// Height of the font in pixels.
    pub scale: u32,
    /// Colour of the text.
    pub color: Rgb,
}

/// The mathematical value of a [`TextPlacement`].
pub struct PlacementView {
    pub text: Seq<char>,
    pub x: int,
    pub y: int,
    pub scale: int,
    pub color: Rgb,
}

impl View for TextPlacement {
    type V = PlacementView;

    open spec fn view(&self) -> PlacementView {
        PlacementView {
            text: self.text@,
            x: self.x as int,
            y: self.y as int,
            scale: self.scale as int,
            color: self.color,
        }
    }
}

impl PlacementView {
    /// The placement of display lines on a canvas of the given size, relative
    /// to an origin: the lines joined by a bar, 20 pixels right of the origin
    /// and 5 below it, at an eightieth of the canvas's smaller dimension, in
    /// dark grey.
    pub open spec fn of_lines(
        lines: Seq<Seq<char>>,
        canvas_width: int,
        canvas_height: int,
        origin_x: int,
        origin_y: int,
    ) -> PlacementView {
        PlacementView {
            text: joined(lines, " | "@),
            x: origin_x + 20,
            y: origin_y + 5,
            scale: min_dimension(canvas_width, canvas_height) / 80,
            color: text_color(),
        }
    }

    /// Whether the position that an origin gives can be handed to the
    /// renderer, whose coordinates are `i32`.
    pub open spec fn reachable(origin_x: int, origin_y: int) -> bool {
        origin_x + 20 <= i32::MAX && origin_y + 5 <= i32::MAX
    }
}

impl TextPlacement {
    /// Places display lines on a canvas of the given size, relative to an
    /// origin. Returns `None` exactly when the position lies beyond the
    /// renderer's coordinates.
    pub fn of_lines(
        lines: &Vec<String>,
        canvas_width: u32,
        canvas_height: u32,
        origin_x: u32,
        origin_y: u32,
    ) -> (placed: Option<TextPlacement>)
        ensures
            match placed {
                Some(placement) => PlacementView::reachable(origin_x as int, origin_y as int)
                    && placement@ == PlacementView::of_lines(
                    lines.deep_view(),
                    canvas_width as int,
                    canvas_height as int,
                    origin_x as int,
                    origin_y as int,
                ),
                None => !PlacementView::reachable(origin_x as int, origin_y as int),
            },
    {
        if origin_x > 0x7fff_ffff - 20 || origin_y > 0x7fff_ffff - 5 {
            return None;
        }
        let smaller: u32 = if canvas_width <= canvas_height {
            canvas_width
        } else {
            canvas_height
        };
        Some(
            TextPlacement {
                text: join(lines, " | "),
                x: origin_x as i32 + 20,
                y: origin_y as i32 + 5,
                scale: smaller / 80,
                color: (64u8, 64u8, 64u8),
            },
        )
    }
}

/// A text placement together with the font to render it with.
#[derive(Debug)]
pub struct TextOverlay {
    /// What to write, and where.
    pub placement: TextPlacement,
    /// The font to write it with.
    pub font: rusttype::Font<'static>,
}

/// The mathematical value of a [`TextOverlay`]: the placement, and the bytes
/// of the font.
pub struct OverlayView {
    pub placement: PlacementView,
    pub font: Seq<u8>,
}

impl View for TextOverlay {
    type V = OverlayView;

    open spec fn view(&self) -> OverlayView {
        OverlayView { placement: self.placement@, font: font_source(self.font) }
    }
}

impl TextOverlay {
    /// Whether the data parses as a font.
    pub fn font_is_valid(font_data: Vec<u8>) -> (valid: bool)
        ensures
            valid == font_parses(font_data@),
    {
        font_from_vec(font_data).is_some()
    }

    /// Parses a font for a placement. Returns `None` exactly when the data is
    /// no font.
    pub fn with_font(placement: TextPlacement, font_data: Vec<u8>) -> (overlay: Option<
        TextOverlay,
    >)
        ensures
            overlay is Some <==> font_parses(font_data@),
            overlay matches Some(made) ==> made@ == (OverlayView {
                placement: placement@,
                font: font_data@,
            }),
    {
        match font_from_vec(font_data) {
            Some(font) => Some(TextOverlay { placement, font }),
            None => None,
        }
    }
}

} // verus!
