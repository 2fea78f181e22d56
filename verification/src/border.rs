//! Border styles and the thickness of the four edges they give an image.

use crate::error::ErrorView;
use crate::error::PhotoBorderError;
use vstd::prelude::*;
use vstd::string::*;

verus! {

/// The three border styles.
#[derive(Debug, Clone, Copy, PartialEq, Eq, Structural)]
pub enum BorderType {
    /// A thin strip along the bottom edge only.
    Small,
    /// The same medium thickness on all four edges.
    Medium,
    /// The same large thickness on all four edges.
    Large,
}

/// What `str::to_lowercase` makes of a string.
pub uninterp spec fn lowercase(s: Seq<char>) -> Seq<char>;

/// Calls `str::to_lowercase`. The result is the lowercase form that std
/// defines for the argument; nothing else is claimed of it.
#[verifier::external_body]
fn to_lowercase(s: &str) -> (lower: String)
    ensures
        lower@ == lowercase(s@),
{
    s.to_lowercase()
}

/// The smaller of an image's two dimensions.
pub open spec fn min_dimension(width: int, height: int) -> int {
    if width <= height {
        width
    } else {
        height
    }
}

impl BorderType {
    /// The style that a lowercase token stands for, if any.
    pub open spec fn of_token(token: Seq<char>) -> Option<BorderType> {
        if token == "s"@ || token == "small"@ {
            Some(BorderType::Small)
        } else if token == "m"@ || token == "medium"@ {
            Some(BorderType::Medium)
        } else if token == "l"@ || token == "large"@ {
            Some(BorderType::Large)
        } else {
            None
        }
    }

    /// Reads a style from a token that is already in lowercase:
    /// `s`/`small`, `m`/`medium` or `l`/`large`.
    pub fn from_lowercase(token: &str) -> (parsed: Result<BorderType, &'static str>)
        ensures
            match Self::of_token(token@) {
                Some(style) => parsed == Ok::<BorderType, &'static str>(style),
                None => parsed matches Err(reason) && reason@ == "Invalid border type"@,
            },
    {
        let token = String::from_str(token);
        if token == String::from_str("s") || token == String::from_str("small") {
            Ok(BorderType::Small)
        } else if token == String::from_str("m") || token == String::from_str("medium") {
            Ok(BorderType::Medium)
        } else if token == String::from_str("l") || token == String::from_str("large") {
            Ok(BorderType::Large)
        } else {
            Err("Invalid border type")
        }
    }

    /// Reads a style from a token, ignoring case.
    pub fn from_str(s: &str) -> (parsed: Result<BorderType, &'static str>)
        ensures
            match Self::of_token(lowercase(s@)) {
                Some(style) => parsed == Ok::<BorderType, &'static str>(style),
                None => parsed matches Err(reason) && reason@ == "Invalid border type"@,
            },
    {
        let lower = to_lowercase(s);
        Self::from_lowercase(lower.as_str())
    }

    /// Reads the style setting of a run from a token, ignoring case. A token
    /// that stands for no style is a `FontError`, as every fault in the
    /// settings of a run is.
    pub fn parse(token: &str) -> (parsed: Result<BorderType, PhotoBorderError>)
        ensures
            match Self::of_token(lowercase(token@)) {
                Some(style) => parsed matches Ok(read) && read == style,
                None => parsed matches Err(error) && error@ == ErrorView::FontError(
                    "Invalid border type"@,
                ),
            },
    {
        match Self::from_str(token) {
            Ok(style) => Ok(style),
            Err(reason) => Err(PhotoBorderError::FontError(String::from_str(reason))),
        }
    }

    /// The thickness `(top, right, bottom, left)` that this style gives an
    /// image of the given size.
    pub open spec fn border_size(self, width: int, height: int) -> (int, int, int, int) {
        let m = min_dimension(width, height);
        match self {
            BorderType::Small => (0, 0, m / 60, 0),
            BorderType::Medium => (m / 15, m / 15, m / 15, m / 15),
            BorderType::Large => (m / 10, m / 10, m / 10, m / 10),
        }
    }

    /// Computes the thickness `(top, right, bottom, left)` of the border for an
    /// image of `img_width` by `img_height` pixels.
    pub fn get_border_size(&self, img_width: u32, img_height: u32) -> (insets: (u32, u32, u32, u32))
        ensures
            (insets.0 as int, insets.1 as int, insets.2 as int, insets.3 as int)
                == self.border_size(img_width as int, img_height as int),
            insets.0 >= 0 && insets.1 >= 0 && insets.2 >= 0 && insets.3 >= 0,
            *self is Medium || *self is Large ==> insets.0 == insets.1 && insets.1 == insets.2
                && insets.2 == insets.3,
            *self is Small ==> insets.0 == 0 && insets.1 == 0 && insets.3 == 0,
            insets.0 <= img_height && insets.2 <= img_height,
            insets.1 <= img_width && insets.3 <= img_width,
    {
        let min_dimension: u32 = if img_width <= img_height {
            img_width
        } else {
            img_height
        };
        match self {
            BorderType::Small => {
                let bottom: u32 = min_dimension / 60;
                (0, 0, bottom, 0)
            },
            BorderType::Medium => {
                let border: u32 = min_dimension / 15;
                (border, border, border, border)
            },
            BorderType::Large => {
                let border: u32 = min_dimension / 10;
                (border, border, border, border)
            },
        }
    }
}

/// The border of an image that is not empty is thinner than the bordered
/// canvas, in both directions: the image keeps room inside it.
pub proof fn lemma_border_leaves_room(style: BorderType, width: int, height: int)
    requires
        width > 0,
        height > 0,
    ensures
        ({
            let (top, right, bottom, left) = style.border_size(width, height);
            &&& 0 <= top && 0 <= right && 0 <= bottom && 0 <= left
            &&& top + bottom < height + top + bottom
            &&& left + right < width + left + right
            &&& top + bottom <= height && left + right <= width
        }),
{
}

} // verus!
