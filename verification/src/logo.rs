use vstd::prelude::*;

use crate::codec::{decode_rgba, decoded_rgba_of};
use crate::pixels::PixelImage;

verus! {

/// The two supported logo asset kinds, selected by file extension.
#[derive(Clone, Copy, Debug, PartialEq, Eq, Structural)]
pub enum LogoKind {
    /// A vector asset, rendered to pixels by an external capability.
    Vector,
    /// A raster asset, decoded directly.
    Raster,
}

/// Why a logo could not be prepared. Each failure is surfaced when the
/// engine is constructed; no partially configured engine is ever returned.
#[derive(Clone, Copy, Debug, PartialEq, Eq, Structural)]
pub enum LogoError {
    /// The asset file could not be read.
    IoFailure,
    /// The asset bytes could not be parsed.
    ParseFailure,
    /// The file extension names no supported format.
    UnsupportedFormat,
}

/// The extension spells "svg", in any letter case.
pub open spec fn is_svg_ext(s: Seq<char>) -> bool {
    s.len() == 3 && (s[0] == 's' || s[0] == 'S') && (s[1] == 'v' || s[1] == 'V') && (s[2] == 'g'
        || s[2] == 'G')
}

/// The extension spells "png", in any letter case.
pub open spec fn is_png_ext(s: Seq<char>) -> bool {
    s.len() == 3 && (s[0] == 'p' || s[0] == 'P') && (s[1] == 'n' || s[1] == 'N') && (s[2] == 'g'
        || s[2] == 'G')
}

/// The extension spells "jpg", in any letter case.
pub open spec fn is_jpg_ext(s: Seq<char>) -> bool {
    s.len() == 3 && (s[0] == 'j' || s[0] == 'J') && (s[1] == 'p' || s[1] == 'P') && (s[2] == 'g'
        || s[2] == 'G')
}

/// The extension spells "jpeg", in any letter case.
pub open spec fn is_jpeg_ext(s: Seq<char>) -> bool {
    s.len() == 4 && (s[0] == 'j' || s[0] == 'J') && (s[1] == 'p' || s[1] == 'P') && (s[2] == 'e'
        || s[2] == 'E') && (s[3] == 'g' || s[3] == 'G')
}

/// Which asset kind a file extension selects: "svg" is a vector asset,
/// "png", "jpg" and "jpeg" are raster assets, anything else is unsupported.
pub open spec fn spec_logo_kind(s: Seq<char>) -> Result<LogoKind, LogoError> {
    if is_svg_ext(s) {
        Ok(LogoKind::Vector)
    } else if is_png_ext(s) || is_jpg_ext(s) || is_jpeg_ext(s) {
        Ok(LogoKind::Raster)
    } else {
        Err(LogoError::UnsupportedFormat)
    }
}

/// Classify a logo file extension, ignoring letter case.
pub fn logo_kind(ext: &str) -> (r: Result<LogoKind, LogoError>)
    ensures
        r == spec_logo_kind(ext@),
{
    let n = ext.unicode_len();
    if n == 3 {
        let c0 = ext.get_char(0);
        let c1 = ext.get_char(1);
        let c2 = ext.get_char(2);
        if (c0 == 's' || c0 == 'S') && (c1 == 'v' || c1 == 'V') && (c2 == 'g' || c2 == 'G') {
            Ok(LogoKind::Vector)
        } else if (c0 == 'p' || c0 == 'P') && (c1 == 'n' || c1 == 'N') && (c2 == 'g' || c2 == 'G') {
            Ok(LogoKind::Raster)
        } else if (c0 == 'j' || c0 == 'J') && (c1 == 'p' || c1 == 'P') && (c2 == 'g' || c2 == 'G') {
            Ok(LogoKind::Raster)
        } else {
            Err(LogoError::UnsupportedFormat)
        }
    } else if n == 4 {
        let c0 = ext.get_char(0);
        let c1 = ext.get_char(1);
        let c2 = ext.get_char(2);
        let c3 = ext.get_char(3);
        if (c0 == 'j' || c0 == 'J') && (c1 == 'p' || c1 == 'P') && (c2 == 'e' || c2 == 'E') && (c3
            == 'g' || c3 == 'G') {
            Ok(LogoKind::Raster)
        } else {
            Err(LogoError::UnsupportedFormat)
        }
    } else {
        Err(LogoError::UnsupportedFormat)
    }
}

/// The working resolution vector assets are rendered at: the longer logical
/// side maps to this many pixels, keeping later scaling maths independent of
/// the source's own resolution.
pub const SVG_WORKING_PX: u32 = 200;

/// The raster dimensions a vector asset of logical size `(lw, lh)` is
/// rendered at: scaled, preserving the aspect ratio, so the longer side
/// becomes the working resolution.
pub open spec fn spec_svg_working_dims(lw: int, lh: int) -> (int, int) {
    let longer = if lw >= lh {
        lw
    } else {
        lh
    };
    (lw * 200 / longer, lh * 200 / longer)
}

/// Compute the raster dimensions to render a vector asset at: the longer
/// side becomes exactly the working resolution, the shorter one keeps the
/// aspect ratio.
pub fn svg_working_dims(lw: u32, lh: u32) -> (r: (u32, u32))
    requires
        lw >= 1,
        lh >= 1,
    ensures
        (r.0 as int, r.1 as int) == spec_svg_working_dims(lw as int, lh as int),
        if lw >= lh {
            r.0 == SVG_WORKING_PX
        } else {
            r.1 == SVG_WORKING_PX
        },
        r.0 <= SVG_WORKING_PX,
        r.1 <= SVG_WORKING_PX,
{
    let longer: u32 = if lw >= lh {
        lw
    } else {
        lh
    };
    proof {
        assert((longer as int) * 200 / (longer as int) == 200 && (lw as int) * 200 / (
        longer as int) <= 200 && (lh as int) * 200 / (longer as int) <= 200) by (nonlinear_arith)
            requires
                1 <= lw as int <= longer as int,
                1 <= lh as int <= longer as int,
        ;
    }
    let nw: u64 = (lw as u64) * 200 / (longer as u64);
    let nh: u64 = (lh as u64) * 200 / (longer as u64);
    (nw as u32, nh as u32)
}

/// Decode a raster logo asset from its file bytes. The asset's native pixel
/// dimensions are kept as-is; scaling happens later, at compositing time.
pub fn load_raster_logo(bytes: &Vec<u8>) -> (r: Result<PixelImage, LogoError>)
    ensures
        r matches Ok(img) ==> img@.wf() && decoded_rgba_of(bytes@) == Some(
            (img@.width, img@.height, img@.data),
        ),
        r matches Err(e) ==> e == LogoError::ParseFailure && decoded_rgba_of(bytes@) is None,
        r is Ok <==> decoded_rgba_of(bytes@) is Some,
{
    match decode_rgba(bytes) {
        Some(img) => Ok(img),
        None => Err(LogoError::ParseFailure),
    }
}

} // verus!
