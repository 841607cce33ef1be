//! The terrain tile: one immutable color raster and one height raster of a
//! square, power-of-two size, sampled toroidally by bitwise masking.

use vstd::arithmetic::div_mod::lemma_mod_multiples_vanish;
use vstd::arithmetic::power2::lemma2_to64;
use vstd::arithmetic::power2::lemma_pow2_adds;
use vstd::arithmetic::power2::lemma_pow2_pos;
use vstd::arithmetic::power2::lemma_pow2_strictly_increases;
use vstd::arithmetic::power2::pow2;
use vstd::bits::lemma_u32_low_bits_mask_is_mod;
use vstd::bits::lemma_u32_shl_is_mul;
use vstd::bits::low_bits_mask;
use vstd::prelude::*;

verus! {

/// An RGB color sampled from the color raster.
#[derive(Clone, Copy, PartialEq, Eq, Structural, Debug)]
pub struct Rgb {
    pub r: u8,
    pub g: u8,
    pub b: u8,
}

/// Why building a terrain map from a raster pair failed. No partial map is
/// ever constructed: each failure leaves nothing behind.
#[derive(Clone, Copy, PartialEq, Eq, Structural, Debug)]
pub enum MapError {
    /// The color and height rasters differ in size, or are not square.
    DimensionMismatch,
    /// The square size is not a power of two.
    NotPowerOfTwo,
    /// No raster pair exists for the requested map id.
    MissingAsset,
}

/// Toroidal wrap of a coordinate into `[0, size)`: the Euclidean remainder.
pub open spec fn wrap(c: int, size: int) -> int
    recommends
        size > 0,
{
    c % size
}

/// Whether `n` is one of the supported power-of-two tile sizes.
pub open spec fn is_power_of_two(n: int) -> bool {
    exists|sh: nat| sh < 16 && n == pow2(sh)
}

/// One square terrain tile. `size` is a power of two; `period` and `shift`
/// are derived from it so that sampling wraps by masking and shifting.
pub struct TerrainMap {
    pub id: i32,
    pub colors: Vec<Rgb>,
    pub height_map: Vec<u8>,
    pub size: u32,
    pub period: u32,
    pub shift: u32,
}

impl TerrainMap {
    /// The construction-time invariant: a square raster pair of a
    /// power-of-two size, with the wrap mask and shift derived from it.
    /// The size cap of 32768 is a deliberate machine guard: a tile that
    /// large already holds a billion cells, and the cap keeps every index
    /// product comfortably inside `u32`.
    pub open spec fn wf(self) -> bool {
        &&& 1 <= self.size <= 0x8000
        &&& self.shift < 16
        &&& self.size == pow2(self.shift as nat)
        &&& self.period == self.size - 1
        &&& self.colors@.len() == self.size * self.size
        &&& self.height_map@.len() == self.size * self.size
    }

    /// The flattened raster index that the point `(x, y)` wraps to.
    pub open spec fn point_index(self, x: int, y: int) -> int {
        wrap(x, self.size as int) + wrap(y, self.size as int) * (self.size as int)
    }

    /// The color the tile shows at `(x, y)`, toroidally wrapped.
    pub open spec fn color_at(self, x: int, y: int) -> Rgb {
        self.colors@[self.point_index(x, y)]
    }

    /// The terrain height at `(x, y)`, toroidally wrapped.
    pub open spec fn height_at(self, x: int, y: int) -> u8 {
        self.height_map@[self.point_index(x, y)]
    }

    /// Builds a tile from a color raster and a height raster, checking that
    /// the two agree in size, are square, and have a power-of-two side.
    ///
    /// Each raster is given as its row-major pixels together with its width
    /// and height; the caller passes buffers whose length matches those
    /// dimensions, as any decoded image has.
    pub fn new(
        id: i32,
        color_width: u32,
        color_height: u32,
        colors: Vec<Rgb>,
        height_width: u32,
        height_height: u32,
        height_map: Vec<u8>,
    ) -> (r: Result<TerrainMap, MapError>)
        requires
            colors@.len() == color_width * color_height,
            height_map@.len() == height_width * height_height,
            color_width <= 0x8000,
            color_height <= 0x8000,
        ensures
            match r {
                Ok(m) => {
                    &&& m.wf()
                    &&& m.id == id
                    &&& m.size == color_width
                    &&& m.colors@ == colors@
                    &&& m.height_map@ == height_map@
                    &&& color_width == height_width
                    &&& color_height == height_height
                    &&& color_width == color_height
                    &&& is_power_of_two(color_width as int)
                },
                Err(MapError::DimensionMismatch) => {
                    ||| color_width != height_width
                    ||| color_height != height_height
                    ||| color_width != color_height
                },
                Err(MapError::NotPowerOfTwo) => {
                    &&& color_width == height_width
                    &&& color_height == height_height
                    &&& color_width == color_height
                    &&& !is_power_of_two(color_width as int)
                },
                Err(MapError::MissingAsset) => false,
            },
    {
        if color_width != height_width || color_height != height_height
            || color_width != color_height {
            return Err(MapError::DimensionMismatch);
        }
        let size: u32 = color_width;
        if size == 0 {
            proof {
                assert forall|j: nat| j < 16 implies pow2(j) != size by {
                    lemma_pow2_pos(j);
                }
            }
            return Err(MapError::NotPowerOfTwo);
        }

        // Find the shift with `1 << shift == size`, or reject the size.
        let mut sh: u32 = 0;
        let mut s: u32 = 1;
        proof {
            lemma2_to64();
        }
        while s < size
            invariant
                1 <= size <= 0x8000,
                sh < 16,
                s == pow2(sh as nat),
                forall|j: nat| j < sh ==> pow2(j) < size,
            decreases 16 - sh,
        {
            proof {
                lemma_pow2_adds(sh as nat, 1);
                lemma2_to64();
                if sh >= 15 {
                    if sh > 15 {
                        lemma_pow2_strictly_increases(15, sh as nat);
                    }
                    assert(pow2(15) == 0x8000);
                    assert(false);
                }
                assert forall|j: nat| j < sh + 1 implies pow2(j) < size by {
                    if j < sh {
                    } else {
                        assert(pow2(j) == s);
                    }
                }
            }
            s = s * 2;
            sh = sh + 1;
        }
        if s != size {
            proof {
                assert forall|j: nat| j < 16 implies pow2(j) != size by {
                    if j < sh {
                        assert(pow2(j) < size);
                    } else if j > sh {
                        lemma_pow2_strictly_increases(sh as nat, j);
                    }
                }
            }
            return Err(MapError::NotPowerOfTwo);
        }
        proof {
            assert(is_power_of_two(size as int)) by {
                assert((sh as nat) < 16 && size == pow2(sh as nat));
            }
        }
        Ok(TerrainMap { id, colors, height_map, size, period: size - 1, shift: sh })
    }

    /// The id this tile was loaded under.
    pub fn get_id(&self) -> (r: i32)
        ensures
            r == self.id,
    {
        self.id
    }

    /// Samples the color and height at `(x, y)`. Both coordinates wrap
    /// toroidally into `[0, size)`, negative values included, by masking the
    /// two's-complement representation.
    #[inline]
    pub fn get_point(&self, x: i32, y: i32) -> (r: (Rgb, u8))
        requires
            self.wf(),
        ensures
            r.0 == self.color_at(x as int, y as int),
            r.1 == self.height_at(x as int, y as int),
    {
        let x_offset: u32 = (#[verifier::truncate] (x as u32)) & self.period;
        let y_wrapped: u32 = (#[verifier::truncate] (y as u32)) & self.period;
        proof {
            lemma_cast_mask_is_wrap(x, self.size, self.period, self.shift);
            lemma_cast_mask_is_wrap(y, self.size, self.period, self.shift);
            vstd::arithmetic::mul::lemma_mul_inequality(
                y_wrapped as int,
                self.size as int - 1,
                self.size as int,
            );
            assert((self.size - 1) * self.size + (self.size - 1) < self.size * self.size
                && self.size * self.size <= 0x40000000) by (nonlinear_arith)
                requires
                    1 <= self.size <= 0x8000,
            ;
            lemma_u32_shl_is_mul(y_wrapped, self.shift);
        }
        let y_offset: u32 = y_wrapped << self.shift;
        let idx: usize = (x_offset + y_offset) as usize;
        let color = self.colors[idx];
        let map_height = self.height_map[idx];
        (color, map_height)
    }
}

/// Masking the low bits of the two's-complement representation computes the
/// Euclidean remainder by the power-of-two size, for negative coordinates as
/// well as positive ones.
proof fn lemma_cast_mask_is_wrap(c: i32, size: u32, period: u32, shift: u32)
    requires
        shift < 16,
        size == pow2(shift as nat),
        period == size - 1,
    ensures
        ((c as u32) & period) == wrap(c as int, size as int),
        ((c as u32) & period) < size,
{
    let cu = c as u32;
    lemma_pow2_pos(shift as nat);
    lemma2_to64();
    assert(size <= 0x8000) by {
        if shift >= 16 {
        } else if pow2(shift as nat) > 0x8000 {
            lemma_pow2_strictly_increases(15, shift as nat);
        }
    }
    // The mask is the low-bits mask for `shift` bits.
    assert(period == low_bits_mask(shift as nat) as u32);
    lemma_u32_low_bits_mask_is_mod(cu, shift as nat);
    assert(cu & period == cu % size);
    // The cast keeps the value modulo 2^32.
    assert(cu == c + if c < 0 {
        0x1_0000_0000int
    } else {
        0int
    }) by (bit_vector)
        requires
            cu == c as u32,
    ;
    // 2^32 is a multiple of the size, so it vanishes modulo the size.
    lemma_pow2_adds(shift as nat, (32 - shift) as nat);
    if c < 0 {
        lemma_mod_multiples_vanish(pow2((32 - shift) as nat) as int, c as int, size as int);
        assert(size as int * pow2((32 - shift) as nat) as int == 0x1_0000_0000int);
        assert(cu as int % (size as int) == c as int % (size as int));
    }
    assert(cu % size == cu as int % (size as int));
}

/// The sampling functions are toroidal: shifting either coordinate by the
/// tile size, any whole number of times, lands on the same cell.
pub proof fn lemma_sample_toroidal(m: TerrainMap, x: int, y: int)
    requires
        m.wf(),
    ensures
        m.color_at(x + m.size, y) == m.color_at(x, y),
        m.color_at(x, y + m.size) == m.color_at(x, y),
        m.height_at(x + m.size, y) == m.height_at(x, y),
        m.height_at(x, y + m.size) == m.height_at(x, y),
{
    lemma_mod_multiples_vanish(1, x, m.size as int);
    lemma_mod_multiples_vanish(1, y, m.size as int);
}

} // verus!
