//! The format registry: the map from extension spellings to format tags.
//!
//! `jpg`/`jpeg` and `tif`/`tiff` are alias pairs; every other supported
//! format has exactly one spelling. Matching is case-sensitive.

use vstd::prelude::*;
use crate::paths::str_eq;

verus! {

/// A supported output format.
#[derive(Clone, Copy, Debug, PartialEq, Eq, Structural)]
pub enum Format {
    Png,
    Jpeg,
    WebP,
    Bmp,
    Tiff,
    Gif,
    Ico,
}

/// Rejection of an extension string that names no supported format.
#[derive(Debug)]
pub struct UnsupportedFormat {
    /// The extension string that was not recognized.
    pub extension: String,
}

/// The format named by `ext`, if `ext` is a recognized spelling.
pub open spec fn spec_lookup(ext: Seq<char>) -> Option<Format> {
    if ext == "png"@ {
        Some(Format::Png)
    } else if ext == "jpg"@ || ext == "jpeg"@ {
        Some(Format::Jpeg)
    } else if ext == "webp"@ {
        Some(Format::WebP)
    } else if ext == "bmp"@ {
        Some(Format::Bmp)
    } else if ext == "tiff"@ || ext == "tif"@ {
        Some(Format::Tiff)
    } else if ext == "gif"@ {
        Some(Format::Gif)
    } else if ext == "ico"@ {
        Some(Format::Ico)
    } else {
        None
    }
}

/// Whether `ext` is a recognized spelling of a supported format.
pub open spec fn is_supported_extension(ext: Seq<char>) -> bool {
    spec_lookup(ext) is Some
}

/// Maps an extension string to its format tag; rejects every string that is
/// not a recognized spelling, carrying the offending string in the error.
pub fn lookup(ext: &str) -> (r: Result<Format, UnsupportedFormat>)
    ensures
        match r {
            Ok(f) => spec_lookup(ext@) == Some(f),
            Err(e) => spec_lookup(ext@) is None && e.extension@ == ext@,
        },
{
    if str_eq(ext, "png") {
        Ok(Format::Png)
    } else if str_eq(ext, "jpg") || str_eq(ext, "jpeg") {
        Ok(Format::Jpeg)
    } else if str_eq(ext, "webp") {
        Ok(Format::WebP)
    } else if str_eq(ext, "bmp") {
        Ok(Format::Bmp)
    } else if str_eq(ext, "tiff") || str_eq(ext, "tif") {
        Ok(Format::Tiff)
    } else if str_eq(ext, "gif") {
        Ok(Format::Gif)
    } else if str_eq(ext, "ico") {
        Ok(Format::Ico)
    } else {
        Err(UnsupportedFormat { extension: String::from_str(ext) })
    }
}

/// Whether `extension` names a recognized image format.
pub fn is_image_format(extension: Option<&str>) -> (r: bool)
    ensures
        r == match extension {
            Some(e) => is_supported_extension(e@),
            None => false,
        },
{
    match extension {
        Some(e) => match lookup(e) {
            Ok(_) => true,
            Err(_) => false,
        },
        None => false,
    }
}

/// Lookup is total on the supported spellings, and the alias pairs
/// `jpg`/`jpeg` and `tif`/`tiff` name the same format.
pub proof fn lemma_lookup_total_on_supported()
    ensures
        spec_lookup("png"@) == Some(Format::Png),
        spec_lookup("jpg"@) == Some(Format::Jpeg),
        spec_lookup("jpeg"@) == Some(Format::Jpeg),
        spec_lookup("webp"@) == Some(Format::WebP),
        spec_lookup("bmp"@) == Some(Format::Bmp),
        spec_lookup("tiff"@) == Some(Format::Tiff),
        spec_lookup("tif"@) == Some(Format::Tiff),
        spec_lookup("gif"@) == Some(Format::Gif),
        spec_lookup("ico"@) == Some(Format::Ico),
        spec_lookup("jpg"@) == spec_lookup("jpeg"@),
        spec_lookup("tif"@) == spec_lookup("tiff"@),
{
    reveal_strlit("png");
    reveal_strlit("jpg");
    reveal_strlit("jpeg");
    reveal_strlit("webp");
    reveal_strlit("bmp");
    reveal_strlit("tiff");
    reveal_strlit("tif");
    reveal_strlit("gif");
    reveal_strlit("ico");
    assert("png"@[0] == 'p' && "png"@.len() == 3);
    assert("jpg"@[0] == 'j' && "jpg"@.len() == 3);
    assert("jpeg"@[0] == 'j' && "jpeg"@.len() == 4);
    assert("webp"@[0] == 'w' && "webp"@.len() == 4);
    assert("bmp"@[0] == 'b' && "bmp"@.len() == 3);
    assert("tiff"@[0] == 't' && "tiff"@.len() == 4);
    assert("tif"@[0] == 't' && "tif"@.len() == 3);
    assert("gif"@[0] == 'g' && "gif"@.len() == 3);
    assert("ico"@[0] == 'i' && "ico"@.len() == 3);
}

} // verus!
