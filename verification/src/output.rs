//! How the output file is named and where it is put.

use crate::error::ErrorView;
use crate::error::PhotoBorderError;
use crate::metadata::text_of;
use vstd::prelude::*;
use vstd::string::*;

verus! {

/// What `std::path::Path::file_stem` gives for a path, on the platform that
/// the library is built for.
pub uninterp spec fn path_file_stem(path: Seq<char>) -> Option<Seq<char>>;

/// What `std::path::Path::extension` gives for a path, on the platform that
/// the library is built for.
pub uninterp spec fn path_extension(path: Seq<char>) -> Option<Seq<char>>;

/// What `std::path::Path::parent` gives for a path, on the platform that the
/// library is built for.
pub uninterp spec fn path_parent(path: Seq<char>) -> Option<Seq<char>>;

/// What `std::path::Path::join` makes of a directory and a path, on the
/// platform that the library is built for.
pub uninterp spec fn path_join(dir: Seq<char>, path: Seq<char>) -> Seq<char>;

/// Calls `std::path::Path::file_stem` on a path given as text.
#[verifier::external_body]
fn file_stem_of(path: &str) -> (stem: Option<String>)
    ensures
        text_of(stem) == path_file_stem(path@),
{
    std::path::Path::new(path).file_stem().and_then(|stem| stem.to_str()).map(String::from)
}

/// Calls `std::path::Path::extension` on a path given as text.
#[verifier::external_body]
fn extension_of(path: &str) -> (extension: Option<String>)
    ensures
        text_of(extension) == path_extension(path@),
{
    std::path::Path::new(path).extension().and_then(|ext| ext.to_str()).map(String::from)
}

/// Calls `std::path::Path::parent` on a path given as text.
#[verifier::external_body]
fn parent_of(path: &str) -> (parent: Option<String>)
    ensures
        text_of(parent) == path_parent(path@),
{
    std::path::Path::new(path).parent().and_then(|dir| dir.to_str()).map(String::from)
}

/// Calls `std::path::Path::join` on a directory and a path given as text.
#[verifier::external_body]
fn join_paths(dir: &str, path: &str) -> (joined: String)
    ensures
        joined@ == path_join(dir@, path@),
{
    std::path::Path::new(dir).join(path).to_string_lossy().into_owned()
}

/// The name of the output file for a stem and an extension:
/// `<stem>_border.<extension>`.
pub open spec fn bordered_name(stem: Seq<char>, extension: Seq<char>) -> Seq<char> {
    stem + "_border."@ + extension
}

/// The name of the output file for the stem and the extension of an input
/// path, or the error for a path that lacks one of them.
pub open spec fn output_name(stem: Option<Seq<char>>, extension: Option<Seq<char>>) -> Result<
    Seq<char>,
    ErrorView,
> {
    match stem {
        None => Err(ErrorView::IoError("Invalid filename"@)),
        Some(stem) => match extension {
            None => Err(ErrorView::IoError("No file extension"@)),
            Some(extension) => Ok(bordered_name(stem, extension)),
        },
    }
}

/// The directory that the output goes to: the one asked for, else the one
/// that the input lies in, else the current one.
pub open spec fn output_directory(asked: Option<Seq<char>>, parent: Option<Seq<char>>) -> Seq<
    char,
> {
    match asked {
        Some(dir) => dir,
        None => match parent {
            Some(dir) => dir,
            None => "."@,
        },
    }
}

/// The output path for an input path: [`output_name`] inside
/// [`output_directory`].
pub open spec fn output_path(input_path: Seq<char>, output_dir: Option<Seq<char>>) -> Result<
    Seq<char>,
    ErrorView,
> {
    match output_name(path_file_stem(input_path), path_extension(input_path)) {
        Err(error) => Err(error),
        Ok(name) => Ok(path_join(output_directory(output_dir, path_parent(input_path)), name)),
    }
}

/// The characters of an optional string slice.
pub open spec fn str_of(value: Option<&str>) -> Option<Seq<char>> {
    match value {
        Some(text) => Some(text@),
        None => None,
    }
}

/// Names the output file for the stem and the extension of an input path.
/// Fails where the path has no stem, and where it has no extension.
pub fn name_output(stem: &Option<String>, extension: &Option<String>) -> (named: Result<
    String,
    PhotoBorderError,
>)
    ensures
        match output_name(text_of(*stem), text_of(*extension)) {
            Ok(name) => named matches Ok(text) && text@ == name,
            Err(error) => named matches Err(reason) && reason@ == error,
        },
{
    match stem {
        None => Err(PhotoBorderError::IoError(String::from_str("Invalid filename"))),
        Some(stem) => match extension {
            None => Err(PhotoBorderError::IoError(String::from_str("No file extension"))),
            Some(extension) => {
                let mut name = stem.clone();
                name.append("_border.");
                name.append(extension.as_str());
                Ok(name)
            },
        },
    }
}

/// Picks the directory that the output goes to.
pub fn choose_directory(asked: Option<&str>, parent: &Option<String>) -> (dir: String)
    ensures
        dir@ == output_directory(str_of(asked), text_of(*parent)),
{
    match asked {
        Some(dir) => String::from_str(dir),
        None => match parent {
            Some(dir) => dir.clone(),
            None => String::from_str("."),
        },
    }
}

/// Derives the output path for an input path: `<stem>_border.<extension>`, in
/// `output_dir` if there is one, else beside the input.
pub fn derive_output_path(input_path: &str, output_dir: Option<&str>) -> (derived: Result<
    String,
    PhotoBorderError,
>)
    ensures
        match output_path(input_path@, str_of(output_dir)) {
            Ok(path) => derived matches Ok(text) && text@ == path,
            Err(error) => derived matches Err(reason) && reason@ == error,
        },
{
    let stem = file_stem_of(input_path);
    let extension = extension_of(input_path);
    match name_output(&stem, &extension) {
        Err(error) => Err(error),
        Ok(name) => {
            let parent = parent_of(input_path);
            let dir = choose_directory(output_dir, &parent);
            Ok(join_paths(dir.as_str(), name.as_str()))
        },
    }
}

} // verus!
