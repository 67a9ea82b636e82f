//! Procedural test images: square pictures computed pixel by pixel.
//!
//! A pixel is a `u32` that holds red in its lowest byte, then green, blue
//! and alpha. An image is stored row by row from the top.

use vstd::arithmetic::div_mod::lemma_fundamental_div_mod_converse;
use vstd::prelude::*;

verus! {

/// Side of the `Xor` and `RgbSlice` images.
pub const PATTERN_SIZE: usize = 256;

/// The two colours of the `Missing` checkerboard: opaque black and opaque
/// magenta.
pub const BLACK: u32 = 0xff00_0000;

pub const MAGENTA: u32 = 0xffff_00ff;

/// A picture that can be computed for every pixel position.
#[derive(Clone, Copy, Debug, PartialEq, Eq, Structural)]
pub enum Pattern {
    /// A checkerboard of magenta and black cells, each `2^cell_size_exp`
    /// pixels wide and high, magenta in the top-left corner.
    Missing { cell_size_exp: usize },
    /// Grey, as bright as the bitwise exclusive or of column and row.
    Xor,
    /// Red grows with the column, green with the row, blue is half on.
    RgbSlice,
}

/// The pixel with the given channels, each in `0..256`.
pub open spec fn rgba(r: int, g: int, b: int, a: int) -> int {
    r + 0x100 * g + 0x1_0000 * b + 0x100_0000 * a
}

impl Pattern {
    /// Whether the pattern is defined on a square of side `size`.
    pub open spec fn covers(self, size: int) -> bool {
        match self {
            Pattern::Missing { cell_size_exp } => cell_size_exp < usize::BITS,
            Pattern::Xor => size <= 256,
            Pattern::RgbSlice => size <= 256,
        }
    }

    /// The pixel in column `x` of row `y`.
    pub open spec fn pixel(self, x: usize, y: usize) -> u32 {
        match self {
            Pattern::Missing { cell_size_exp } => if (x >> cell_size_exp) & 1 == (y
                >> cell_size_exp) & 1 {
                MAGENTA
            } else {
                BLACK
            },
            Pattern::Xor => rgba(
                (x ^ y) as int,
                (x ^ y) as int,
                (x ^ y) as int,
                255,
            ) as u32,
            Pattern::RgbSlice => rgba(x as int, y as int, 128, 255) as u32,
        }
    }

    /// The image of side `size`, row by row.
    pub open spec fn image(self, size: int) -> Seq<u32> {
        Seq::new((size * size) as nat, |i: int| self.pixel((i % size) as usize, (i / size) as usize))
    }

    /// Computes the pixel in column `x` of row `y`.
    pub fn pixel_at(&self, x: usize, y: usize) -> (p: u32)
        requires
            self matches Pattern::Missing { cell_size_exp } ==> cell_size_exp < usize::BITS,
            !(self is Missing) ==> x < 256 && y < 256,
        ensures
            p == self.pixel(x, y),
    {
        match *self {
            Pattern::Missing { cell_size_exp } => {
                let cell_size: usize = 1usize << cell_size_exp;
                proof {
                    lemma_checker_bit(x, y, cell_size_exp);
                }
                if (x & cell_size) ^ (y & cell_size) == 0 {
                    MAGENTA
                } else {
                    BLACK
                }
            },
            Pattern::Xor => {
                let byte: u32 = (y as u32) ^ (x as u32);
                proof {
                    lemma_xor_of_bytes(x, y);
                    lemma_pack(byte, byte, byte);
                }
                (255u32 << 24) | (byte << 16) | (byte << 8) | byte
            },
            Pattern::RgbSlice => {
                let r: u32 = x as u32;
                let g: u32 = y as u32;
                let b: u32 = 128;
                proof {
                    lemma_pack(r, g, b);
                }
                (255u32 << 24) | (b << 16) | (g << 8) | r
            },
        }
    }

    /// Computes the image of side `size`.
    pub fn generate(&self, size: usize) -> (pixels: Vec<u32>)
        requires
            self.covers(size as int),
            size * size <= usize::MAX,
        ensures
            pixels@ == self.image(size as int),
    {
        let mut pixels: Vec<u32> = Vec::new();
        let mut y: usize = 0;
        while y < size
            invariant
                self.covers(size as int),
                size * size <= usize::MAX,
                y <= size,
                pixels.len() == y * size,
                forall|i: int|
                    0 <= i < pixels.len() ==> #[trigger] pixels[i] == self.pixel(
                        (i % (size as int)) as usize,
                        (i / (size as int)) as usize,
                    ),
            decreases size - y,
        {
            let mut x: usize = 0;
            while x < size
                invariant
                    self.covers(size as int),
                    size * size <= usize::MAX,
                    y < size,
                    x <= size,
                    pixels.len() == y * size + x,
                    forall|i: int|
                        0 <= i < pixels.len() ==> #[trigger] pixels[i] == self.pixel(
                            (i % (size as int)) as usize,
                            (i / (size as int)) as usize,
                        ),
                decreases size - x,
            {
                proof {
                    lemma_fundamental_div_mod_converse(
                        y * size + x,
                        size as int,
                        y as int,
                        x as int,
                    );
                }
                let p = self.pixel_at(x, y);
                pixels.push(p);
                x = x + 1;
            }
            proof {
                assert(y * size + size == (y + 1) * size) by (nonlinear_arith);
            }
            y = y + 1;
        }
        proof {
            assert(pixels@ =~= self.image(size as int));
        }
        pixels
    }
}

/// Masking two numbers with one bit and comparing the results tells whether
/// the numbers agree in that bit.
proof fn lemma_checker_bit(x: usize, y: usize, e: usize)
    by (bit_vector)
    requires
        e < usize::BITS,
    ensures
        ((x & (1usize << e)) ^ (y & (1usize << e)) == 0) == ((x >> e) & 1 == (y >> e) & 1),
{
}

/// The exclusive or of two bytes is a byte, whatever the width it is
/// computed in.
proof fn lemma_xor_of_bytes(x: usize, y: usize)
    by (bit_vector)
    requires
        x < 256,
        y < 256,
    ensures
        (x ^ y) < 256,
        ((y as u32) ^ (x as u32)) == (x ^ y) as u32,
{
}

/// Shifting three bytes and full alpha into place and joining them gives
/// the pixel with those channels.
proof fn lemma_pack(r: u32, g: u32, b: u32)
    by (bit_vector)
    requires
        r < 256,
        g < 256,
        b < 256,
    ensures
        (255u32 << 24) | (b << 16) | (g << 8) | r == 0xff00_0000u32 + 0x1_0000u32 * b + 0x100u32 * g
            + r,
{
}

} // verus!
