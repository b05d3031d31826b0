//! Bayer-matrix thresholds for ordered dithering.
//!
//! A threshold is the exact fraction `n / BAYER_SCALE`; the functions here
//! work on the numerator `n` alone, so that every value is an integer.

use vstd::prelude::*;

verus! {

/// Edge of the square about which the mirrored thresholds are reflected.
pub const DITHER_SIZE: u8 = 128;

/// Denominator of every threshold: 255 * 255.
pub const BAYER_SCALE: u32 = 65025;

/// Moves bit `i` of `v` to bit `14 - 2 * i`, for each of the eight bits.
pub open spec fn spread_reversed(v: u8) -> u16 {
    let w = v as u16;
    ((w & 0x01) << 14) | ((w & 0x02) << 11) | ((w & 0x04) << 8) | ((w & 0x08) << 5)
        | ((w & 0x10) << 2) | ((w & 0x20) >> 1) | ((w & 0x40) >> 4) | ((w & 0x80) >> 7)
}

/// The interleaving of `x` and `y`, most significant bit last: bit `i` of `x`
/// stands at bit `15 - 2 * i` of the result and bit `i` of `y` at bit
/// `14 - 2 * i`.
pub open spec fn interleave(x: u8, y: u8) -> u16 {
    (spread_reversed(x) << 1) | spread_reversed(y)
}

/// One round of `bit_interleave`: where the accumulator holds the top
/// `2 * k` bits of the interleaving, shifting in bit `k` of `x` and then bit
/// `k` of `y` makes it hold the top `2 * k + 2`.
proof fn lemma_interleave_step(x: u8, y: u8, k: u32, acc: u16)
    by (bit_vector)
    requires
        k < 8,
        acc as u32 == (interleave(x, y) as u32) >> ((16 - 2 * k) as u32),
    ensures
        ((((acc << 1) | (((x >> k) & 1) as u16)) << 1) | (((y >> k) & 1) as u16)) as u32
            == (interleave(x, y) as u32) >> ((14 - 2 * k) as u32),
        (x >> k) >> 1 == x >> ((k + 1) as u32),
        (y >> k) >> 1 == y >> ((k + 1) as u32),
{
}

/// Before the first round the accumulator holds no bit of the interleaving,
/// and after the last it holds all sixteen.
proof fn lemma_interleave_ends(x: u8, y: u8)
    by (bit_vector)
    ensures
        x >> 0u32 == x,
        y >> 0u32 == y,
        (interleave(x, y) as u32) >> 16u32 == 0,
        (interleave(x, y) as u32) >> 0u32 == interleave(x, y) as u32,
{
}

/// Interleaves the bits of `x` and `y` into sixteen bits, reversing their
/// order on the way.
pub fn bit_interleave(x: u8, y: u8) -> (r: u16)
    ensures
        r == interleave(x, y),
{
    let mut acc: u16 = 0;
    let mut a: u8 = x;
    let mut b: u8 = y;
    let mut k: u32 = 0;
    proof {
        lemma_interleave_ends(x, y);
    }
    while k < 8
        invariant
            k <= 8,
            a == x >> k,
            b == y >> k,
            acc as u32 == (interleave(x, y) as u32) >> ((16 - 2 * k) as u32),
        decreases 8 - k,
    {
        proof {
            lemma_interleave_step(x, y, k, acc);
        }
        acc = acc << 1;
        acc = acc | ((a & 1) as u16);
        a = a >> 1;
        acc = acc << 1;
        acc = acc | ((b & 1) as u16);
        b = b >> 1;
        k = k + 1;
    }
    acc
}

/// The first member of the pair that `interleave` maps to `v`.
pub open spec fn deinterleave_first(v: u16) -> u8 {
    (((v >> 15) & 1) | (((v >> 13) & 1) << 1) | (((v >> 11) & 1) << 2) | (((v >> 9) & 1) << 3)
        | (((v >> 7) & 1) << 4) | (((v >> 5) & 1) << 5) | (((v >> 3) & 1) << 6) | (((v >> 1) & 1)
        << 7)) as u8
}

/// The second member of the pair that `interleave` maps to `v`.
pub open spec fn deinterleave_second(v: u16) -> u8 {
    (((v >> 14) & 1) | (((v >> 12) & 1) << 1) | (((v >> 10) & 1) << 2) | (((v >> 8) & 1) << 3)
        | (((v >> 6) & 1) << 4) | (((v >> 4) & 1) << 5) | (((v >> 2) & 1) << 6) | ((v & 1) << 7))
        as u8
}

/// Where each bit goes: bit `i` of `x` is bit `15 - 2 * i` of the
/// interleaving, and bit `i` of `y` is bit `14 - 2 * i`.
pub proof fn lemma_interleave_bits(x: u8, y: u8, i: u32)
    by (bit_vector)
    requires
        i < 8,
    ensures
        (interleave(x, y) >> ((15 - 2 * i) as u32)) & 1 == ((x >> i) & 1) as u16,
        (interleave(x, y) >> ((14 - 2 * i) as u32)) & 1 == ((y >> i) & 1) as u16,
{
}

/// Two pairs with the same interleaving are the same pair.
pub proof fn lemma_interleave_injective(x1: u8, y1: u8, x2: u8, y2: u8)
    by (bit_vector)
    requires
        interleave(x1, y1) == interleave(x2, y2),
    ensures
        x1 == x2,
        y1 == y2,
{
}

/// Deinterleaving an interleaving gives the pair back.
pub proof fn lemma_deinterleave_interleave(x: u8, y: u8)
    by (bit_vector)
    ensures
        deinterleave_first(interleave(x, y)) == x,
        deinterleave_second(interleave(x, y)) == y,
{
}

/// Every sixteen-bit value is the interleaving of a pair: of the one that
/// deinterleaving gives.
pub proof fn lemma_interleave_deinterleave(v: u16)
    by (bit_vector)
    ensures
        interleave(deinterleave_first(v), deinterleave_second(v)) == v,
{
}

/// For a fixed first member, different second members interleave to
/// different values; and likewise for a fixed second member.
pub proof fn lemma_interleave_distinct(x: u8, y1: u8, y2: u8)
    requires
        y1 != y2,
    ensures
        interleave(x, y1) != interleave(x, y2),
        interleave(y1, x) != interleave(y2, x),
{
    if interleave(x, y1) == interleave(x, y2) {
        lemma_interleave_injective(x, y1, x, y2);
    }
    if interleave(y1, x) == interleave(y2, x) {
        lemma_interleave_injective(y1, x, y2, x);
    }
}

/// Numerator of the threshold at `(x, y)`; the threshold itself is this
/// number over `BAYER_SCALE`.
pub open spec fn bayer_numerator(x: u8, y: u8) -> u32 {
    (interleave(x ^ y, x) + 1) as u32
}

/// The coordinates at which the numerator exceeds `BAYER_SCALE`, so that the
/// threshold is above one.
pub open spec fn overshoots(x: u8, y: u8) -> bool {
    x & 7 == 7 && (x ^ y) & 15 == 15 && (x > 7 || y > 15)
}

/// The threshold at `(x, y)`, as its numerator over `BAYER_SCALE`.
pub fn bayer(x: u8, y: u8) -> (n: u32)
    ensures
        n == bayer_numerator(x, y),
        1 <= n <= 65536,
{
    let magic = bit_interleave(x ^ y, x);
    magic as u32 + 1
}

/// Every numerator is positive and at most 65536, and it stays within
/// `BAYER_SCALE` exactly where the coordinates do not overshoot.
pub proof fn lemma_bayer_range(x: u8, y: u8)
    ensures
        1 <= bayer_numerator(x, y) <= 65536,
        bayer_numerator(x, y) <= BAYER_SCALE <==> !overshoots(x, y),
{
    let m = interleave(x ^ y, x);
    assert(m <= 65024 <==> !(x & 7 == 7 && (x ^ y) & 15 == 15 && (x > 7 || y > 15)))
        by (bit_vector)
        requires
            m == interleave(x ^ y, x),
    ;
}

/// Inside the image, a threshold lies above zero and at most at one wherever
/// the coordinates do not overshoot.
pub proof fn lemma_bayer_in_unit_interval(x: u8, y: u8)
    requires
        x < 255,
        y < 255,
        !overshoots(x, y),
    ensures
        0 < bayer_numerator(x, y) <= BAYER_SCALE,
{
    lemma_bayer_range(x, y);
}

/// No two coordinates share a threshold.
pub proof fn lemma_bayer_injective(x1: u8, y1: u8, x2: u8, y2: u8)
    requires
        bayer_numerator(x1, y1) == bayer_numerator(x2, y2),
    ensures
        x1 == x2,
        y1 == y2,
{
    lemma_interleave_injective(x1 ^ y1, x1, x2 ^ y2, x2);
    assert(y1 == y2) by (bit_vector)
        requires
            x1 ^ y1 == x2 ^ y2,
            x1 == x2,
    ;
}

/// The reflection of a coordinate about `DITHER_SIZE`, modulo 256.
pub open spec fn mirrored(c: u8) -> u8 {
    ((DITHER_SIZE - c) % 256) as u8
}

/// The four numerators of a texel: the threshold at `(x, y)`, then with `x`
/// mirrored, with `y` mirrored, and with both mirrored.
pub open spec fn bias(x: u8, y: u8) -> Seq<u32> {
    seq![
        bayer_numerator(x, y),
        bayer_numerator(mirrored(x), y),
        bayer_numerator(x, mirrored(y)),
        bayer_numerator(mirrored(x), mirrored(y)),
    ]
}

/// The four thresholds of the texel at `(x, y)`, one for each colour
/// channel, as numerators over `BAYER_SCALE`.
pub fn bayer_bias(x: u8, y: u8) -> (b: [u32; 4])
    ensures
        b@ == bias(x, y),
{
    let mx = DITHER_SIZE.wrapping_sub(x);
    let my = DITHER_SIZE.wrapping_sub(y);
    let b = [bayer(x, y), bayer(mx, y), bayer(x, my), bayer(mx, my)];
    assert(b@ =~= bias(x, y));
    b
}

/// Mirroring twice gives the coordinate back.
pub proof fn lemma_mirrored_involution(c: u8)
    ensures
        mirrored(mirrored(c)) == c,
{
}

/// Channels 1, 2 and 3 of a texel are channel 0 of the texels at the
/// mirrored coordinates, and the other way round.
pub proof fn lemma_bias_mirrors(x: u8, y: u8)
    ensures
        bias(x, y).len() == 4,
        bias(x, y)[0] == bayer_numerator(x, y),
        bias(x, y)[1] == bias(mirrored(x), y)[0],
        bias(x, y)[2] == bias(x, mirrored(y))[0],
        bias(x, y)[3] == bias(mirrored(x), mirrored(y))[0],
        bias(x, y)[0] == bias(mirrored(x), y)[1],
        bias(x, y)[0] == bias(x, mirrored(y))[2],
        bias(x, y)[0] == bias(mirrored(x), mirrored(y))[3],
{
    lemma_mirrored_involution(x);
    lemma_mirrored_involution(y);
}

} // verus!
