use vstd::prelude::*;
use image::ImageEncoder;
use crate::template::Image;

verus! {

/// The extension of a path, as `std::path::Path::extension` takes it.
pub uninterp spec fn extension_of(path: Seq<char>) -> Option<Seq<char>>;

/// What the `image` crate reads from the bytes of a file at `path`, in the
/// format that the path's extension names: the width, the height and the
/// RGBA bytes of the picture, or the text of the error.
pub uninterp spec fn decoded_rgba(path: Seq<char>, bytes: Seq<u8>) -> Result<
    (u32, u32, Seq<u8>),
    Seq<char>,
>;

/// What the `image` crate's reader gives for bytes whose format it was not
/// told.
pub uninterp spec fn decoded_without_format(bytes: Seq<u8>) -> Result<
    (u32, u32, Seq<u8>),
    Seq<char>,
>;

/// The PNG file that the `image` crate writes for an RGBA picture, or the
/// text of the error.
pub uninterp spec fn png_encoding(width: u32, height: u32, rgba: Seq<u8>) -> Result<
    Seq<u8>,
    Seq<char>,
>;

/// The extension of a path.
///
/// Trusted: calls `std::path::Path::extension`, whose result depends on the
/// path alone; it is named `extension_of`.
#[verifier::external_body]
pub(crate) fn path_extension(path: &str) -> (r: Option<String>)
    ensures
        match r {
            Some(e) => extension_of(path@) == Some(e@),
            None => extension_of(path@) is None,
        },
{
    match std::path::Path::new(path).extension() {
        Some(e) => Some(e.to_string_lossy().into_owned()),
        None => None,
    }
}

/// Reads an image file's bytes as RGBA pixels, in the format that the
/// path's extension names.
///
/// Trusted: calls `image::ImageFormat::from_path`, `ImageReader::decode`
/// and `DynamicImage::to_rgba8`; the result is named `decoded_rgba`.
/// Stated besides: a decoded picture's buffer holds exactly
/// `width * height` pixels (the decoder fills a buffer of that size and the
/// conversion to RGBA keeps one pixel per pixel).
#[verifier::external_body]
pub(crate) fn decode_rgba(path: &str, bytes: &[u8]) -> (r: Result<Image, String>)
    ensures
        match r {
            Ok(i) => i.wf() && decoded_rgba(path@, bytes@) == Ok::<(u32, u32, Seq<u8>), Seq<char>>(
                (i.width, i.height, i.rgba@),
            ),
            Err(e) => decoded_rgba(path@, bytes@) == Err::<(u32, u32, Seq<u8>), Seq<char>>(e@),
        },
{
    let format = match image::ImageFormat::from_path(path) {
        Ok(f) => f,
        Err(e) => return Err(e.to_string()),
    };
    match image::ImageReader::with_format(std::io::Cursor::new(bytes), format).decode() {
        Ok(d) => {
            let p = d.to_rgba8();
            Ok(Image { width: p.width(), height: p.height(), rgba: p.into_raw() })
        },
        Err(e) => Err(e.to_string()),
    }
}

/// Asks the `image` crate's reader to decode bytes without naming their
/// format.
///
/// Trusted: calls `ImageReader::new(..).decode()`; the result is named
/// `decoded_without_format`. Stated besides: it is an error, since
/// `decode` starts by requiring a format and fails without one.
#[verifier::external_body]
pub(crate) fn decode_rgba_without_format(bytes: &[u8]) -> (r: Result<Image, String>)
    ensures
        r is Err,
        match r {
            Ok(i) => decoded_without_format(bytes@) == Ok::<(u32, u32, Seq<u8>), Seq<char>>(
                (i.width, i.height, i.rgba@),
            ),
            Err(e) => decoded_without_format(bytes@) == Err::<(u32, u32, Seq<u8>), Seq<char>>(e@),
        },
{
    match image::ImageReader::new(std::io::Cursor::new(bytes)).decode() {
        Ok(d) => {
            let p = d.to_rgba8();
            Ok(Image { width: p.width(), height: p.height(), rgba: p.into_raw() })
        },
        Err(e) => Err(e.to_string()),
    }
}

/// What becomes of a template file at `path`: its picture, or the text of
/// what went wrong reading or decoding it. A path with a non-empty
/// extension is decoded in the format that the extension names; without
/// one, the format is undetermined.
pub open spec fn template_decoding(path: Seq<char>, file: Result<Vec<u8>, String>) -> Result<
    (u32, u32, Seq<u8>),
    Seq<char>,
> {
    match file {
        Err(e) => Err(e@),
        Ok(bytes) => match extension_of(path) {
            Some(ext) => if ext.len() > 0 {
                decoded_rgba(path, bytes@)
            } else {
                decoded_without_format(bytes@)
            },
            None => decoded_without_format(bytes@),
        },
    }
}

/// Decodes the template file read from `path`, as `image::open` does: the
/// format comes from the path's extension when it has a non-empty one.
pub fn decode_template(path: &str, file: Result<Vec<u8>, String>) -> (r: Result<Image, String>)
    ensures
        match r {
            Ok(i) => i.wf() && template_decoding(path@, file) == Ok::<
                (u32, u32, Seq<u8>),
                Seq<char>,
            >((i.width, i.height, i.rgba@)),
            Err(e) => template_decoding(path@, file) == Err::<(u32, u32, Seq<u8>), Seq<char>>(e@),
        },
{
    match file {
        Err(e) => Err(e),
        Ok(bytes) => {
            let named = match path_extension(path) {
                Some(ext) => ext.as_str().unicode_len() > 0,
                None => false,
            };
            if named {
                decode_rgba(path, bytes.as_slice())
            } else {
                decode_rgba_without_format(bytes.as_slice())
            }
        },
    }
}

/// Encodes an RGBA picture as a PNG file.
///
/// Trusted: calls `image::codecs::png::PngEncoder::write_image` with the
/// `Rgba8` colour type, which is what `ImageBuffer::write_to` does for the
/// PNG format. The result is named `png_encoding`. The encoder panics on a
/// buffer whose length is not `width * height * 4`, which `requires` leaves
/// out.
#[verifier::external_body]
pub(crate) fn encode_png(image: &Image) -> (r: Result<Vec<u8>, String>)
    requires
        image.wf(),
    ensures
        match r {
            Ok(png) => png_encoding(image.width, image.height, image.rgba@) == Ok::<
                Seq<u8>,
                Seq<char>,
            >(png@),
            Err(e) => png_encoding(image.width, image.height, image.rgba@) == Err::<
                Seq<u8>,
                Seq<char>,
            >(e@),
        },
{
    let mut out: Vec<u8> = Vec::new();
    let written = image::codecs::png::PngEncoder::new(&mut out).write_image(
        image.rgba.as_slice(),
        image.width,
        image.height,
        image::ExtendedColorType::Rgba8,
    );
    match written {
        Ok(()) => Ok(out),
        Err(e) => Err(e.to_string()),
    }
}

} // verus!
