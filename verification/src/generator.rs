use vstd::prelude::*;

use crate::codec::{is_png_signature, png_encode, png_of};
use crate::matrix::{qr_encode, qr_modules_of};
use crate::overlay::{overlay_logo, spec_overlay_logo};
use crate::pixels::{ImageView, PixelImage};
use crate::rasterize::{rasterize, rasterized};

verus! {

/// Why a generation call failed. Every failure is terminal for the call that
/// produced it; none is retried and none is downgraded to a default image.
#[derive(Clone, Copy, Debug, PartialEq, Eq, Structural)]
pub enum QrGenError {
    /// The content exceeds the maximum symbol capacity at the highest
    /// error-correction level.
    ContentTooLarge,
    /// The final serialization step refused the buffer geometry; a defect,
    /// not a user input problem.
    EncodingFailure,
}

/// The byte stream `generate` produces for a target size, an optional
/// prepared logo, and the content: the module grid from the symbol encoder,
/// rasterized to an exactly square image of the target size, the logo
/// composited into the centre when one is configured, and the pixels encoded
/// as PNG.
pub open spec fn spec_generate(size: u32, logo: Option<ImageView>, content: Seq<char>) -> Result<
    Seq<u8>,
    QrGenError,
> {
    match qr_modules_of(content) {
        None => Err(QrGenError::ContentTooLarge),
        Some(m) => {
            let raster = rasterized(m, size as int);
            let composed = match logo {
                None => raster,
                Some(l) => spec_overlay_logo(raster, l),
            };
            match png_of(composed.data, size as int, size as int) {
                None => Err(QrGenError::EncodingFailure),
                Some(b) => Ok(b),
            }
        },
    }
}

/// A QR code generator with an optional branding logo. The configuration is
/// bound at construction and read-only thereafter: one instance serves many
/// generation calls, and clones can serve them concurrently.
#[derive(Clone)]
pub struct QrGenerator {
    size: u32,
    logo: Option<PixelImage>,
}

impl QrGenerator {
    /// The configured target size, in pixels, of each output's side.
    pub closed spec fn spec_size(&self) -> u32 {
        self.size
    }

    /// The prepared logo pixels, when one is configured.
    pub closed spec fn spec_logo(&self) -> Option<ImageView> {
        match self.logo {
            Some(l) => Some(l@),
            None => None,
        }
    }

    /// The configuration invariant: a positive target size whose square
    /// buffer fits in memory, and a well-formed logo when one is configured.
    pub open spec fn wf(&self) -> bool {
        &&& self.spec_size() >= 1
        &&& 4 * ((self.spec_size() as int) * (self.spec_size() as int)) <= usize::MAX
        &&& match self.spec_logo() {
            Some(l) => l.wf(),
            None => true,
        }
    }

    /// Create a generator for `size`-pixel square codes, carrying the
    /// already prepared logo pixels when a logo is configured.
    pub fn new(size: u32, logo: Option<PixelImage>) -> (r: Self)
        requires
            size >= 1,
            4 * ((size as int) * (size as int)) <= usize::MAX,
            logo matches Some(l) ==> l@.wf(),
        ensures
            r.wf(),
            r.spec_size() == size,
            r.spec_logo() == (match logo {
                Some(l) => Some(l@),
                None => None::<ImageView>,
            }),
    {
        QrGenerator { size, logo }
    }

    /// Generate the PNG bytes of the QR code for `content`: encode the
    /// content at the highest error-correction level, rasterize the grid to
    /// the configured square size, composite the configured logo if any, and
    /// serialize. The outcome is exactly `spec_generate` of the
    /// configuration and content, so equal configurations and content always
    /// yield equal results.
    pub fn generate(&self, content: &str) -> (r: Result<Vec<u8>, QrGenError>)
        requires
            self.wf(),
        ensures
            match r {
                Ok(b) => spec_generate(self.spec_size(), self.spec_logo(), content@) == Ok::<
                    Seq<u8>,
                    QrGenError,
                >(b@) && is_png_signature(b@),
                Err(e) => spec_generate(self.spec_size(), self.spec_logo(), content@) == Err::<
                    Seq<u8>,
                    QrGenError,
                >(e),
            },
    {
        let matrix = match qr_encode(content) {
            Some(m) => m,
            None => {
                return Err(QrGenError::ContentTooLarge);
            },
        };
        let raster = rasterize(&matrix, self.size);
        let composed = match &self.logo {
            Some(l) => overlay_logo(raster, l),
            None => raster,
        };
        match png_encode(&composed) {
            Some(b) => Ok(b),
            None => Err(QrGenError::EncodingFailure),
        }
    }
}

/// Whatever content the symbol encoder accepts, the pixel buffer handed to
/// the PNG encoder is exactly the configured square: `size` wide and `size`
/// high, with or without a logo.
pub proof fn lemma_generate_square(size: u32, logo: Option<ImageView>, content: Seq<char>)
    ensures
        (match qr_modules_of(content) {
            Some(m) => {
                let raster = rasterized(m, size as int);
                let composed = match logo {
                    None => raster,
                    Some(l) => spec_overlay_logo(raster, l),
                };
                composed.width == size && composed.height == size
            },
            None => true,
        }),
{
}

/// Determinism: two successful generation outcomes of identical
/// configuration (target size and logo pixels) and identical content are
/// byte-identical.
pub proof fn lemma_generate_deterministic(
    size: u32,
    logo: Option<ImageView>,
    content: Seq<char>,
    b1: Seq<u8>,
    b2: Seq<u8>,
)
    requires
        spec_generate(size, logo, content) == Ok::<Seq<u8>, QrGenError>(b1),
        spec_generate(size, logo, content) == Ok::<Seq<u8>, QrGenError>(b2),
    ensures
        b1 == b2,
{
}

/// Without a logo, the generated stream is exactly the encoding of the raw
/// rasterization of the module grid: no backing patch, no blended pixel.
pub proof fn lemma_generate_no_logo(size: u32, content: Seq<char>)
    ensures
        spec_generate(size, None, content) == (match qr_modules_of(content) {
            None => Err::<Seq<u8>, QrGenError>(QrGenError::ContentTooLarge),
            Some(m) => match png_of(
                rasterized(m, size as int).data,
                size as int,
                size as int,
            ) {
                None => Err::<Seq<u8>, QrGenError>(QrGenError::EncodingFailure),
                Some(b) => Ok::<Seq<u8>, QrGenError>(b),
            },
        }),
{
}

} // verus!
