use vstd::prelude::*;
use vstd::string::*;

use rand::RngExt;

verus! {

/// The alphabet short codes draw from: letters and digits without the
/// ambiguous characters '0', 'O', 'I', 'l' and '1'.
pub open spec fn spec_alphabet() -> Seq<char> {
    "ABCDEFGHJKLMNPQRSTUVWXYZabcdefghijkmnpqrstuvwxyz23456789"@
}

/// Length of a generated short code.
pub const SHORT_CODE_LENGTH: usize = 7;

/// Relies on rand::rng and rand::Rng::random_range: the result lies below
/// the bound. Nothing more can be said of a random number.
#[verifier::external_body]
fn random_index(bound: usize) -> (r: usize)
    requires
        bound > 0,
    ensures
        r < bound,
{
    rand::rng().random_range(0..bound)
}

/// A short code identifier for a link. Wraps a string to provide type
/// safety and controlled generation.
#[derive(Debug, Clone, PartialEq, Eq)]
pub struct ShortCode(String);

impl View for ShortCode {
    type V = Seq<char>;

    closed spec fn view(&self) -> Seq<char> {
        self.0@
    }
}

impl ShortCode {
    /// Generate a new random short code: seven characters, each drawn from
    /// the unambiguous alphabet.
    pub fn generate() -> (r: ShortCode)
        ensures
            r@.len() == SHORT_CODE_LENGTH,
            forall|i: int| 0 <= i < r@.len() ==> spec_alphabet().contains(#[trigger] r@[i]),
    {
        let alphabet = "ABCDEFGHJKLMNPQRSTUVWXYZabcdefghijkmnpqrstuvwxyz23456789";
        proof {
            reveal_strlit("ABCDEFGHJKLMNPQRSTUVWXYZabcdefghijkmnpqrstuvwxyz23456789");
        }
        let mut code = String::new();
        let mut j: usize = 0;
        while j < SHORT_CODE_LENGTH
            invariant
                j <= SHORT_CODE_LENGTH,
                code@.len() == j,
                alphabet@ == spec_alphabet(),
                alphabet.is_ascii(),
                alphabet@.len() == 56,
                forall|i: int| 0 <= i < j ==> spec_alphabet().contains(#[trigger] code@[i]),
            decreases SHORT_CODE_LENGTH - j,
        {
            let idx = random_index(56);
            let piece = alphabet.substring_ascii(idx, idx + 1);
            proof {
                assert(piece@[0] == spec_alphabet()[idx as int]);
                assert(spec_alphabet().contains(piece@[0]));
            }
            code.append(piece);
            j = j + 1;
        }
        ShortCode(code)
    }

    /// Rebuild a short code from an existing string (for instance, one read
    /// back from the store).
    pub fn from_existing(code: String) -> (r: ShortCode)
        ensures
            r@ == code@,
    {
        ShortCode(code)
    }

    /// The short code as a string slice.
    pub fn as_str(&self) -> (r: &str)
        ensures
            r@ == self@,
    {
        self.0.as_str()
    }
}

} // verus!
