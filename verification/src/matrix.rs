use vstd::prelude::*;

use crate::pixels::lemma_pixel_in_bounds;

verus! {

/// A square grid of QR modules: `true` is a dark module, `false` a light
/// one. `side` is the number of modules along one edge; `cells` stores the
/// grid row by row. The grid never includes the quiet zone.
pub struct ModuleMatrix {
    pub(crate) side: usize,
    pub(crate) cells: Vec<bool>,
}

/// The rows of a module grid all have the grid's own length: it is square.
pub open spec fn grid_wf(m: Seq<Seq<bool>>) -> bool {
    forall|i: int| 0 <= i < m.len() ==> (#[trigger] m[i]).len() == m.len()
}

impl View for ModuleMatrix {
    type V = Seq<Seq<bool>>;

    /// The grid as a sequence of rows of dark/light flags.
    closed spec fn view(&self) -> Seq<Seq<bool>> {
        Seq::new(
            self.side as nat,
            |y: int| Seq::new(self.side as nat, |x: int| self.cells@[y * self.side + x]),
        )
    }
}

impl ModuleMatrix {
    /// The flat cell buffer holds one entry per module of the square grid.
    pub closed spec fn inv(&self) -> bool {
        self.cells@.len() == self.side * self.side
    }

    /// The number of modules along one edge.
    pub fn side(&self) -> (r: usize)
        ensures
            r == self@.len(),
    {
        self.side
    }

    /// The module in column `x` of row `y`.
    pub fn cell_at(&self, x: usize, y: usize) -> (r: bool)
        requires
            self.inv(),
            x < self@.len(),
            y < self@.len(),
        ensures
            r == self@[y as int][x as int],
    {
        let n = self.cells.len();
        proof {
            lemma_pixel_in_bounds(self.side as int, self.side as int, x as int, y as int);
        }
        self.cells[y * self.side + x]
    }
}

/// What the QR symbol encoder produces for the given text at the highest
/// error-correction level: `None` when the content exceeds the maximum
/// symbol capacity, otherwise the square dark/light module grid, row by row.
pub uninterp spec fn qr_modules_of(content: Seq<char>) -> Option<Seq<Seq<bool>>>;

/// Relies on qrcode::QrCode::with_error_correction_level at level H and
/// QrCode::into_colors: the encoder picks a normal QR version, whose side is
/// 21 to 177 modules, yields one colour per module row by row, and fails
/// exactly when the content does not fit any symbol version. The outcome
/// depends on the content alone.
#[verifier::external_body]
pub(crate) fn qr_encode(content: &str) -> (r: Option<ModuleMatrix>)
    ensures
        r matches Some(m) ==> m.inv() && grid_wf(m@) && 21 <= m@.len() <= 177 && qr_modules_of(
            content@,
        ) == Some(m@),
        r is None <==> qr_modules_of(content@) is None,
{
    match qrcode::QrCode::with_error_correction_level(content, qrcode::EcLevel::H) {
        Ok(code) => {
            let side = code.width();
            let cells: Vec<bool> =
                code.into_colors().into_iter().map(|c| matches!(c, qrcode::Color::Dark)).collect();
            Some(ModuleMatrix { side, cells })
        },
        Err(_) => None,
    }
}

} // verus!
