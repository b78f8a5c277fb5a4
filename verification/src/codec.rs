use vstd::prelude::*;

use crate::pixels::PixelImage;
use image::ImageEncoder;

verus! {

/// What the PNG encoder produces for an RGBA buffer of the given dimensions:
/// `None` when the codec refuses the geometry, otherwise the complete,
/// losslessly compressed byte stream. The result depends on the arguments
/// alone.
pub uninterp spec fn png_of(data: Seq<u8>, w: int, h: int) -> Option<Seq<u8>>;

/// The fixed eight-byte signature that opens every PNG stream.
pub open spec fn is_png_signature(b: Seq<u8>) -> bool {
    b.len() > 8 && b[0] == 137u8 && b[1] == 80u8 && b[2] == 78u8 && b[3] == 71u8 && b[4] == 13u8
        && b[5] == 10u8 && b[6] == 26u8 && b[7] == 10u8
}

/// Relies on image::codecs::png::PngEncoder::write_image: writing an RGBA
/// buffer whose length matches its dimensions yields a PNG stream, which by
/// the PNG standard always opens with the fixed eight-byte signature; success
/// and output depend on the arguments alone.
#[verifier::external_body]
pub(crate) fn png_encode(img: &PixelImage) -> (r: Option<Vec<u8>>)
    requires
        img@.wf(),
    ensures
        r matches Some(b) ==> png_of(img@.data, img@.width as int, img@.height as int) == Some(b@)
            && is_png_signature(b@),
        r is None <==> png_of(img@.data, img@.width as int, img@.height as int) is None,
{
    let mut out: Vec<u8> = Vec::new();
    let enc = image::codecs::png::PngEncoder::new(&mut out);
    match enc.write_image(
        img.data.as_slice(),
        img.width,
        img.height,
        image::ExtendedColorType::Rgba8,
    ) {
        Ok(()) => Some(out),
        Err(_) => None,
    }
}

/// What the raster decoder produces for the given bytes: `None` when no
/// supported format can parse them, otherwise the decoded width, height and
/// RGBA pixels. The result depends on the bytes alone.
pub uninterp spec fn decoded_rgba_of(bytes: Seq<u8>) -> Option<(nat, nat, Seq<u8>)>;

/// Relies on image::load_from_memory and DynamicImage::to_rgba8: the decoded
/// dimensions and RGBA pixels are a pure function of the input bytes, and
/// decoding fails exactly on bytes that no supported format parses.
#[verifier::external_body]
pub(crate) fn decode_rgba(bytes: &Vec<u8>) -> (r: Option<PixelImage>)
    ensures
        r matches Some(img) ==> img@.wf() && decoded_rgba_of(bytes@) == Some(
            (img@.width, img@.height, img@.data),
        ),
        r is None <==> decoded_rgba_of(bytes@) is None,
{
    match image::load_from_memory(bytes.as_slice()) {
        Ok(decoded) => {
            let buf = decoded.to_rgba8();
            let width = buf.width();
            let height = buf.height();
            Some(PixelImage { width, height, data: buf.into_raw() })
        },
        Err(_) => None,
    }
}

} // verus!
