//! Quantization of a continuous height into a discrete symbol.
//!
//! Heights are fixed-point millionths: the nominal range `[-1.0, 1.0]` of the
//! noise sum is `[-SCALE, SCALE]`. Two policies are offered: clamping the
//! height and bucketing it linearly into an ordered palette, and a wrapping
//! (non-clamping) map onto a fixed run of the ASCII alphabet.

use vstd::prelude::*;
use vstd::arithmetic::div_mod::lemma_div_is_ordered;
use vstd::arithmetic::div_mod::lemma_div_multiples_vanish;
use vstd::arithmetic::div_mod::lemma_div_pos_is_pos;
use vstd::arithmetic::mul::lemma_mul_inequality;
use crate::config::SCALE;

verus! {

/// The byte at a position of the built-in palette `" .:-=+*#%@"`.
pub open spec fn fallback_symbol(i: int) -> u8 {
    if i == 0 {
        32u8
    } else if i == 1 {
        46u8
    } else if i == 2 {
        58u8
    } else if i == 3 {
        45u8
    } else if i == 4 {
        61u8
    } else if i == 5 {
        43u8
    } else if i == 6 {
        42u8
    } else if i == 7 {
        35u8
    } else if i == 8 {
        37u8
    } else {
        64u8
    }
}

/// The ten-symbol palette substituted when a configured palette is empty:
/// the bytes of `" .:-=+*#%@"`.
pub open spec fn fallback_palette() -> Seq<u8> {
    Seq::new(10, |i: int| fallback_symbol(i))
}

/// The fallback palette as bytes, for callers that need to index it.
pub fn fallback_palette_bytes() -> (r: Vec<u8>)
    ensures
        r@ == fallback_palette(),
{
    let mut v: Vec<u8> = Vec::new();
    v.push(32);
    v.push(46);
    v.push(58);
    v.push(45);
    v.push(61);
    v.push(43);
    v.push(42);
    v.push(35);
    v.push(37);
    v.push(64);
    proof {
        assert(v@ =~= fallback_palette());
    }
    v
}

/// A height saturated to the nominal range `[-SCALE, SCALE]`.
pub open spec fn clamp_spec(h: int) -> int {
    if h < -SCALE {
        -SCALE as int
    } else if h > SCALE {
        SCALE as int
    } else {
        h
    }
}

/// The bucket a clamped height falls into when `[-SCALE, SCALE]` is rescaled
/// linearly onto the integers `0 ..= n - 1`. With one bucket the index is zero
/// for every height.
pub open spec fn bucket_index_spec(h: int, n: int) -> int
    recommends
        n >= 1,
{
    (clamp_spec(h) + SCALE) * (n - 1) / (2 * SCALE)
}

/// After the clamp, bucketing never leaves `[0, n - 1]`, whatever the height.
pub proof fn lemma_bucket_index_in_range(h: int, n: int)
    requires
        n >= 1,
    ensures
        0 <= bucket_index_spec(h, n),
        bucket_index_spec(h, n) < n,
{
    let c = clamp_spec(h);
    let num = (c + SCALE) * (n - 1);
    assert(0 * (n - 1) <= num) by {
        lemma_mul_inequality(0, c + SCALE, n - 1);
    }
    lemma_div_pos_is_pos(num, 2 * SCALE);
    assert(num <= 2 * SCALE * (n - 1)) by {
        lemma_mul_inequality(c + SCALE, 2 * SCALE, n - 1);
    }
    lemma_div_is_ordered(num, 2 * SCALE * (n - 1), 2 * SCALE);
    lemma_div_multiples_vanish(n - 1, 2 * SCALE);
}

/// Saturates a height to the nominal range `[-SCALE, SCALE]`.
pub fn clamp_height(h: i64) -> (r: i64)
    ensures
        r as int == clamp_spec(h as int),
{
    if h < -SCALE {
        -SCALE
    } else if h > SCALE {
        SCALE
    } else {
        h
    }
}

/// Clamps a height and rescales it linearly to a bucket index in `0 ..= n - 1`.
pub fn bucket_index(h: i64, n: usize) -> (r: usize)
    requires
        n >= 1,
    ensures
        r as int == bucket_index_spec(h as int, n as int),
        r < n,
{
    let c = clamp_height(h);
    let shifted: u128 = (c + SCALE) as u128;
    let n1: u128 = (n - 1) as u128;
    proof {
        assert((shifted as int) * (n1 as int) <= 2000000 * (n1 as int)) by {
            lemma_mul_inequality(shifted as int, 2000000, n1 as int);
        }
        lemma_bucket_index_in_range(h as int, n as int);
    }
    let num: u128 = shifted * n1;
    let q: u128 = num / 2000000;
    q as usize
}

/// An ordered palette of symbol bytes and the orientation of the mapping.
/// With `reverse` false a low height selects the last palette entry; with
/// `reverse` true it selects the first.
#[derive(Clone, Debug, PartialEq, Eq)]
pub struct GrayscaleMapper {
    pub palette: Vec<u8>,
    pub reverse: bool,
}

impl GrayscaleMapper {
    /// The palette actually indexed: the configured one, or the built-in
    /// fallback when the configured one is empty.
    pub open spec fn effective_palette(&self) -> Seq<u8> {
        if self.palette@.len() == 0 {
            fallback_palette()
        } else {
            self.palette@
        }
    }

    /// The symbol a height quantizes into: clamp, bucket, then select from
    /// one end of the effective palette or the other.
    pub open spec fn map_spec(&self, h: i64) -> u8 {
        let p = self.effective_palette();
        let n = p.len() as int;
        let i = bucket_index_spec(h as int, n);
        if self.reverse {
            p[i]
        } else {
            p[n - 1 - i]
        }
    }

    /// Quantizes a height into a palette symbol. Total: every height maps to
    /// a symbol of the effective palette.
    pub fn map(&self, h: i64) -> (r: u8)
        ensures
            r == self.map_spec(h),
    {
        if self.palette.len() > 0 {
            let i = bucket_index(h, self.palette.len());
            if self.reverse {
                self.palette[i]
            } else {
                self.palette[self.palette.len() - 1 - i]
            }
        } else {
            let fb = fallback_palette_bytes();
            let i = bucket_index(h, fb.len());
            if self.reverse {
                fb[i]
            } else {
                fb[fb.len() - 1 - i]
            }
        }
    }
}

/// Boundedness of the palette lookup: the mapping is total, and the symbol a
/// height maps to is always an entry of the effective palette — the bucket
/// never indexes outside it.
pub proof fn lemma_map_in_palette(m: GrayscaleMapper, h: i64)
    ensures
        exists|j: int|
            0 <= j < m.effective_palette().len() && m.map_spec(h) == m.effective_palette()[j],
{
    let p = m.effective_palette();
    let n = p.len() as int;
    lemma_bucket_index_in_range(h as int, n);
    let i = bucket_index_spec(h as int, n);
    if m.reverse {
        assert(0 <= i < n && m.map_spec(h) == p[i]);
    } else {
        assert(0 <= n - 1 - i < n && m.map_spec(h) == p[n - 1 - i]);
    }
}

/// The sequence read back to front.
pub open spec fn reversed(s: Seq<u8>) -> Seq<u8> {
    Seq::new(s.len(), |i: int| s[s.len() - 1 - i])
}

/// Orientation symmetry: mapping a height with the default orientation over a
/// palette gives the same symbol as mapping it with the reversed orientation
/// over the reversed palette.
pub proof fn lemma_orientation_symmetry(a: GrayscaleMapper, b: GrayscaleMapper, h: i64)
    requires
        a.palette@.len() > 0,
        b.palette@ == reversed(a.palette@),
        a.reverse == false,
        b.reverse == true,
    ensures
        a.map_spec(h) == b.map_spec(h),
{
    let n = a.palette@.len() as int;
    lemma_bucket_index_in_range(h as int, n);
}

/// Constant-palette degeneracy: with a single effective symbol, every height
/// maps to that symbol, in either orientation.
pub proof fn lemma_constant_palette(m: GrayscaleMapper, h: i64)
    requires
        m.effective_palette().len() == 1,
    ensures
        m.map_spec(h) == m.effective_palette()[0],
{
    lemma_bucket_index_in_range(h as int, 1);
}

/// The magnitude of an integer.
pub open spec fn abs_spec(h: int) -> int {
    if h < 0 {
        -h
    } else {
        h
    }
}

/// The symbol the wrapping policy assigns to a height: the height in whole
/// twenty-fifths is folded modulo 26 onto an offset from the byte 65 (`'A'`),
/// mirrored for negative heights. Nothing is clamped: out-of-range heights
/// wrap instead of saturating.
pub open spec fn modulo_symbol_spec(h: int) -> u8 {
    let r = (abs_spec(h) * 25 / (SCALE as int)) % 26;
    if h >= 0 {
        (65 + r) as u8
    } else {
        (65 - r) as u8
    }
}

/// Maps a height onto a fixed 26-letter ASCII range without clamping.
pub fn modulo_symbol(h: i64) -> (r: u8)
    ensures
        r == modulo_symbol_spec(h as int),
{
    let mag: u128 = if h >= 0 {
        h as u128
    } else {
        (-(h as i128)) as u128
    };
    let q: u128 = (mag * 25) / 1000000;
    let m: u128 = q % 26;
    if h >= 0 {
        (65 + m) as u8
    } else {
        (65 - m) as u8
    }
}

/// How a height becomes a symbol: by clamped palette lookup, or by the
/// wrapping map onto the fixed ASCII range.
#[derive(Clone, Debug, PartialEq, Eq)]
pub enum QuantizationPolicy {
    ClampedPalette(GrayscaleMapper),
    ModuloRange,
}

impl QuantizationPolicy {
    /// The symbol the selected policy assigns to a height.
    pub open spec fn quantize_spec(&self, h: i64) -> u8 {
        match self {
            QuantizationPolicy::ClampedPalette(m) => m.map_spec(h),
            QuantizationPolicy::ModuloRange => modulo_symbol_spec(h as int),
        }
    }

    /// Quantizes one height under the selected policy.
    pub fn quantize(&self, h: i64) -> (r: u8)
        ensures
            r == self.quantize_spec(h),
    {
        match self {
            QuantizationPolicy::ClampedPalette(m) => m.map(h),
            QuantizationPolicy::ModuloRange => modulo_symbol(h),
        }
    }
}

} // verus!
