use vstd::prelude::*;

use vstd::utf8::{decode_utf8, valid_utf8};

verus! {

/// Holds the raw data for an embedded game asset.
#[derive(Clone, Debug, PartialEq, Eq)]
pub enum Asset {
    /// A 2D image consisting of a format and data.
    Image {
        /// The raw bytes of the image.
        data: Vec<u8>,
        /// The format of the image.
        format: ImageFormat,
    },
    /// A text-based file.
    Text {
        /// The text within this document.
        value: String,
    },
}

/// Describes the format of an image.
#[derive(Copy, Clone, Debug, PartialEq, Eq, Hash, Structural)]
pub enum ImageFormat {
    /// The image is encoded as a PNG.
    Png,
    /// The image is encoded as a JPEG.
    Jpeg,
}

/// Why a file could not become an asset.
#[derive(Copy, Clone, Debug, PartialEq, Eq, Hash, Structural)]
pub enum AssetError {
    /// A text file did not hold valid UTF-8.
    InvalidText,
}

/// Whether files with this extension hold JPEG images.
pub open spec fn is_jpeg_extension(extension: Seq<char>) -> bool {
    extension == "jpg"@ || extension == "jpeg"@
}

/// Whether files with this extension hold PNG images.
pub open spec fn is_png_extension(extension: Seq<char>) -> bool {
    extension == "png"@
}

/// Whether files with this extension hold text.
pub open spec fn is_text_extension(extension: Seq<char>) -> bool {
    extension == "toml"@ || extension == "txt"@
}

/// Relies on `String::from_utf8`: it succeeds exactly on valid UTF-8, and the
/// string then holds the characters that the bytes encode.
#[verifier::external_body]
fn string_from_utf8(data: Vec<u8>) -> (r: Option<String>)
    ensures
        r is Some <==> valid_utf8(data@),
        r matches Some(s) ==> s@ == decode_utf8(data@),
{
    String::from_utf8(data).ok()
}

/// Whether `a` and `b` hold the same characters.
fn same_text(a: &str, b: &str) -> (r: bool)
    ensures
        r == (a@ == b@),
{
    a.to_owned() == b.to_owned()
}

/// Turns the contents of a file into an asset, by the file's extension:
/// `jpg` and `jpeg` files become JPEG images, `png` files PNG images, and
/// `toml` and `txt` files text, which must be valid UTF-8. Files with any
/// other extension are not assets.
pub fn encode_asset(extension: &str, data: Vec<u8>) -> (r: Result<Option<Asset>, AssetError>)
    ensures
        is_jpeg_extension(extension@) ==> r == Ok::<Option<Asset>, AssetError>(
            Some(Asset::Image { data, format: ImageFormat::Jpeg }),
        ),
        is_png_extension(extension@) ==> r == Ok::<Option<Asset>, AssetError>(
            Some(Asset::Image { data, format: ImageFormat::Png }),
        ),
        is_text_extension(extension@) && valid_utf8(data@) ==> (r matches Ok(Some(Asset::Text { value }))
            && value@ == decode_utf8(data@)),
        is_text_extension(extension@) && !valid_utf8(data@) ==> r == Err::<Option<Asset>, AssetError>(
            AssetError::InvalidText,
        ),
        !is_jpeg_extension(extension@) && !is_png_extension(extension@) && !is_text_extension(
            extension@,
        ) ==> r == Ok::<Option<Asset>, AssetError>(None),
{
    proof {
        reveal_strlit("jpg");
        reveal_strlit("jpeg");
        reveal_strlit("png");
        reveal_strlit("toml");
        reveal_strlit("txt");
        assert("png"@[0] != "jpg"@[0] && "png"@[0] != "jpeg"@[0]);
        assert("txt"@[0] != "jpg"@[0] && "txt"@[0] != "png"@[0] && "txt"@[0] != "jpeg"@[0]);
        assert("toml"@[0] != "jpg"@[0] && "toml"@[0] != "png"@[0] && "toml"@[0] != "jpeg"@[0]);
    }
    if same_text(extension, "jpg") || same_text(extension, "jpeg") {
        Ok(Some(Asset::Image { data, format: ImageFormat::Jpeg }))
    } else if same_text(extension, "png") {
        Ok(Some(Asset::Image { data, format: ImageFormat::Png }))
    } else if same_text(extension, "toml") || same_text(extension, "txt") {
        match string_from_utf8(data) {
            Some(value) => Ok(Some(Asset::Text { value })),
            None => Err(AssetError::InvalidText),
        }
    } else {
        Ok(None)
    }
}

} // verus!
