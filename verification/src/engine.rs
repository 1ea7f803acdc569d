//! Transform engine: the per-pixel arithmetic for the grayscale and invert
//! transforms, as a scalar reference implementation and as block-wise
//! implementations parameterized by a lane width. Every implementation is
//! proved to return exactly the sequence described by the spec functions
//! below, so all variants are bit-identical by contract.

use vstd::prelude::*;

verus! {

use vstd::arithmetic::div_mod::lemma_div_multiples_vanish;

/// Luma value of one pixel: integer-weighted sum, scaled by 1000 and
/// truncated. The weights sum to 1000, so the result is at most 255.
pub open spec fn gray_of(r: u8, g: u8, b: u8) -> u8 {
    ((r as int * 299 + g as int * 587 + b as int * 114) / 1000) as u8
}

/// Inverted value of one channel.
pub open spec fn invert_of(x: u8) -> u8 {
    (255 - x) as u8
}

/// Grayscale of a whole channel triple, element by element.
pub open spec fn gray_seq(r: Seq<u8>, g: Seq<u8>, b: Seq<u8>) -> Seq<u8>
    recommends
        r.len() == g.len() && g.len() == b.len(),
{
    Seq::new(r.len(), |i: int| gray_of(r[i], g[i], b[i]))
}

/// Inversion of a whole channel, element by element.
pub open spec fn invert_seq(s: Seq<u8>) -> Seq<u8> {
    Seq::new(s.len(), |i: int| invert_of(s[i]))
}

/// Scalar grayscale reference implementation. The three returned channels
/// are identical: each holds the luma of the corresponding input pixel.
pub fn grayscale(r: Vec<u8>, g: Vec<u8>, b: Vec<u8>) -> (res: (Vec<u8>, Vec<u8>, Vec<u8>))
    requires
        r@.len() == g@.len() && g@.len() == b@.len(),
    ensures
        res.0@ == gray_seq(r@, g@, b@),
        res.1@ == res.0@,
        res.2@ == res.0@,
{
    let n = r.len();
    let mut out: Vec<u8> = Vec::new();
    let mut i: usize = 0;
    while i < n
        invariant
            i <= n,
            n == r@.len() && n == g@.len() && n == b@.len(),
            out@.len() == i,
            forall|k: int| 0 <= k < i ==> out@[k] == gray_of(r@[k], g@[k], b@[k]),
        decreases n - i,
    {
        let gray = gray_pixel(r[i], g[i], b[i]);
        out.push(gray);
        i = i + 1;
    }
    assert(out@ =~= gray_seq(r@, g@, b@));
    (out.clone(), out.clone(), out)
}

/// Luma of one pixel, executable: widened 32-bit weighted sum, truncating
/// division, narrowed back to 8 bits.
pub fn gray_pixel(r: u8, g: u8, b: u8) -> (res: u8)
    ensures
        res == gray_of(r, g, b),
{
    let sum: u32 = (r as u32) * 299 + (g as u32) * 587 + (b as u32) * 114;
    (sum / 1000) as u8
}

/// Block-wise grayscale with a runtime lane width: full blocks of `lanes`
/// elements are transformed lane by lane, then the trailing remainder is
/// handled with the identical scalar formula. Bit-identical to `grayscale`.
pub fn grayscale_lanes(r: Vec<u8>, g: Vec<u8>, b: Vec<u8>, lanes: usize) -> (res: (
    Vec<u8>,
    Vec<u8>,
    Vec<u8>,
))
    requires
        r@.len() == g@.len() && g@.len() == b@.len(),
        lanes >= 1,
    ensures
        res.0@ == gray_seq(r@, g@, b@),
        res.1@ == res.0@,
        res.2@ == res.0@,
{
    let n = r.len();
    let mut out: Vec<u8> = Vec::new();
    let mut i: usize = 0;
    // Full blocks of `lanes` elements.
    while n - i >= lanes
        invariant
            i <= n,
            lanes >= 1,
            n == r@.len() && n == g@.len() && n == b@.len(),
            out@.len() == i,
            forall|k: int| 0 <= k < i ==> out@[k] == gray_of(r@[k], g@[k], b@[k]),
        decreases n - i,
    {
        // One block: the lane-parallel multiply-add-divide, one lane at a time.
        let end = i + lanes;
        let mut j: usize = i;
        while j < end
            invariant
                i <= j <= end,
                end <= n,
                n == r@.len() && n == g@.len() && n == b@.len(),
                out@.len() == j,
                forall|k: int| 0 <= k < j ==> out@[k] == gray_of(r@[k], g@[k], b@[k]),
            decreases end - j,
        {
            let gray = gray_pixel(r[j], g[j], b[j]);
            out.push(gray);
            j = j + 1;
        }
        i = end;
    }
    // Remainder: the last `n % lanes` elements, one at a time.
    while i < n
        invariant
            i <= n,
            n == r@.len() && n == g@.len() && n == b@.len(),
            out@.len() == i,
            forall|k: int| 0 <= k < i ==> out@[k] == gray_of(r@[k], g@[k], b@[k]),
        decreases n - i,
    {
        let gray = gray_pixel(r[i], g[i], b[i]);
        out.push(gray);
        i = i + 1;
    }
    assert(out@ =~= gray_seq(r@, g@, b@));
    (out.clone(), out.clone(), out)
}

/// Grayscale over blocks of 8 lanes; bit-identical to the scalar reference.
pub fn grayscale_simd_8(r: Vec<u8>, g: Vec<u8>, b: Vec<u8>) -> (res: (Vec<u8>, Vec<u8>, Vec<u8>))
    requires
        r@.len() == g@.len() && g@.len() == b@.len(),
    ensures
        res.0@ == gray_seq(r@, g@, b@),
        res.1@ == res.0@,
        res.2@ == res.0@,
{
    grayscale_lanes(r, g, b, 8)
}

/// Grayscale over blocks of 16 lanes; bit-identical to the scalar reference.
pub fn grayscale_simd_16(r: Vec<u8>, g: Vec<u8>, b: Vec<u8>) -> (res: (Vec<u8>, Vec<u8>, Vec<u8>))
    requires
        r@.len() == g@.len() && g@.len() == b@.len(),
    ensures
        res.0@ == gray_seq(r@, g@, b@),
        res.1@ == res.0@,
        res.2@ == res.0@,
{
    grayscale_lanes(r, g, b, 16)
}

/// Grayscale over blocks of 32 lanes; bit-identical to the scalar reference.
pub fn grayscale_simd_32(r: Vec<u8>, g: Vec<u8>, b: Vec<u8>) -> (res: (Vec<u8>, Vec<u8>, Vec<u8>))
    requires
        r@.len() == g@.len() && g@.len() == b@.len(),
    ensures
        res.0@ == gray_seq(r@, g@, b@),
        res.1@ == res.0@,
        res.2@ == res.0@,
{
    grayscale_lanes(r, g, b, 32)
}

/// Grayscale over blocks of 64 lanes; bit-identical to the scalar reference.
pub fn grayscale_simd_64(r: Vec<u8>, g: Vec<u8>, b: Vec<u8>) -> (res: (Vec<u8>, Vec<u8>, Vec<u8>))
    requires
        r@.len() == g@.len() && g@.len() == b@.len(),
    ensures
        res.0@ == gray_seq(r@, g@, b@),
        res.1@ == res.0@,
        res.2@ == res.0@,
{
    grayscale_lanes(r, g, b, 64)
}

/// Invert one channel sequence, element by element.
pub fn invert_channel(s: &Vec<u8>) -> (res: Vec<u8>)
    ensures
        res@ == invert_seq(s@),
{
    let n = s.len();
    let mut out: Vec<u8> = Vec::new();
    let mut i: usize = 0;
    while i < n
        invariant
            i <= n,
            n == s@.len(),
            out@.len() == i,
            forall|k: int| 0 <= k < i ==> out@[k] == invert_of(s@[k]),
        decreases n - i,
    {
        out.push(255 - s[i]);
        i = i + 1;
    }
    assert(out@ =~= invert_seq(s@));
    out
}

/// Scalar invert reference implementation: each channel is inverted
/// independently.
pub fn invert(r: Vec<u8>, g: Vec<u8>, b: Vec<u8>) -> (res: (Vec<u8>, Vec<u8>, Vec<u8>))
    ensures
        res.0@ == invert_seq(r@),
        res.1@ == invert_seq(g@),
        res.2@ == invert_seq(b@),
{
    let r_res = invert_channel(&r);
    let g_res = invert_channel(&g);
    let b_res = invert_channel(&b);
    (r_res, g_res, b_res)
}

/// Block-wise invert with a runtime lane width: full blocks of `lanes`
/// elements are inverted lane by lane across all three channels, then the
/// trailing remainder is handled with the identical scalar formula.
pub fn invert_lanes(r: Vec<u8>, g: Vec<u8>, b: Vec<u8>, lanes: usize) -> (res: (
    Vec<u8>,
    Vec<u8>,
    Vec<u8>,
))
    requires
        r@.len() == g@.len() && g@.len() == b@.len(),
        lanes >= 1,
    ensures
        res.0@ == invert_seq(r@),
        res.1@ == invert_seq(g@),
        res.2@ == invert_seq(b@),
{
    let n = r.len();
    let mut r_res: Vec<u8> = Vec::new();
    let mut g_res: Vec<u8> = Vec::new();
    let mut b_res: Vec<u8> = Vec::new();
    let mut i: usize = 0;
    // Full blocks of `lanes` elements.
    while n - i >= lanes
        invariant
            i <= n,
            lanes >= 1,
            n == r@.len() && n == g@.len() && n == b@.len(),
            r_res@.len() == i && g_res@.len() == i && b_res@.len() == i,
            forall|k: int| 0 <= k < i ==> r_res@[k] == invert_of(r@[k]),
            forall|k: int| 0 <= k < i ==> g_res@[k] == invert_of(g@[k]),
            forall|k: int| 0 <= k < i ==> b_res@[k] == invert_of(b@[k]),
        decreases n - i,
    {
        // One block: the lane-parallel subtraction, one lane at a time.
        let end = i + lanes;
        let mut j: usize = i;
        while j < end
            invariant
                i <= j <= end,
                end <= n,
                n == r@.len() && n == g@.len() && n == b@.len(),
                r_res@.len() == j && g_res@.len() == j && b_res@.len() == j,
                forall|k: int| 0 <= k < j ==> r_res@[k] == invert_of(r@[k]),
                forall|k: int| 0 <= k < j ==> g_res@[k] == invert_of(g@[k]),
                forall|k: int| 0 <= k < j ==> b_res@[k] == invert_of(b@[k]),
            decreases end - j,
        {
            r_res.push(255 - r[j]);
            g_res.push(255 - g[j]);
            b_res.push(255 - b[j]);
            j = j + 1;
        }
        i = end;
    }
    // Remainder: the last `n % lanes` elements, one at a time.
    while i < n
        invariant
            i <= n,
            n == r@.len() && n == g@.len() && n == b@.len(),
            r_res@.len() == i && g_res@.len() == i && b_res@.len() == i,
            forall|k: int| 0 <= k < i ==> r_res@[k] == invert_of(r@[k]),
            forall|k: int| 0 <= k < i ==> g_res@[k] == invert_of(g@[k]),
            forall|k: int| 0 <= k < i ==> b_res@[k] == invert_of(b@[k]),
        decreases n - i,
    {
        r_res.push(255 - r[i]);
        g_res.push(255 - g[i]);
        b_res.push(255 - b[i]);
        i = i + 1;
    }
    assert(r_res@ =~= invert_seq(r@));
    assert(g_res@ =~= invert_seq(g@));
    assert(b_res@ =~= invert_seq(b@));
    (r_res, g_res, b_res)
}

/// Invert over blocks of 8 lanes; bit-identical to the scalar reference.
pub fn invert_simd_8(r: Vec<u8>, g: Vec<u8>, b: Vec<u8>) -> (res: (Vec<u8>, Vec<u8>, Vec<u8>))
    requires
        r@.len() == g@.len() && g@.len() == b@.len(),
    ensures
        res.0@ == invert_seq(r@),
        res.1@ == invert_seq(g@),
        res.2@ == invert_seq(b@),
{
    invert_lanes(r, g, b, 8)
}

/// Invert over blocks of 16 lanes; bit-identical to the scalar reference.
pub fn invert_simd_16(r: Vec<u8>, g: Vec<u8>, b: Vec<u8>) -> (res: (Vec<u8>, Vec<u8>, Vec<u8>))
    requires
        r@.len() == g@.len() && g@.len() == b@.len(),
    ensures
        res.0@ == invert_seq(r@),
        res.1@ == invert_seq(g@),
        res.2@ == invert_seq(b@),
{
    invert_lanes(r, g, b, 16)
}

/// Invert over blocks of 32 lanes; bit-identical to the scalar reference.
pub fn invert_simd_32(r: Vec<u8>, g: Vec<u8>, b: Vec<u8>) -> (res: (Vec<u8>, Vec<u8>, Vec<u8>))
    requires
        r@.len() == g@.len() && g@.len() == b@.len(),
    ensures
        res.0@ == invert_seq(r@),
        res.1@ == invert_seq(g@),
        res.2@ == invert_seq(b@),
{
    invert_lanes(r, g, b, 32)
}

/// Law: grayscale preserves the sequence length, including length zero.
/// Every implementation variant ensures its output equals `gray_seq` of its
/// input, so every variant returns exactly one value per input pixel.
pub proof fn lemma_gray_seq_length(r: Seq<u8>, g: Seq<u8>, b: Seq<u8>)
    ensures
        gray_seq(r, g, b).len() == r.len(),
{
}

/// Law: inversion preserves the sequence length, including length zero.
/// Every implementation variant ensures its output equals `invert_seq` of
/// its input, so every variant returns exactly one value per input element.
pub proof fn lemma_invert_seq_length(s: Seq<u8>)
    ensures
        invert_seq(s).len() == s.len(),
{
}

/// Law: inverting a channel value twice gives the value back, for every
/// `x` in 0..=255.
pub proof fn lemma_invert_involution(x: u8)
    ensures
        invert_of(invert_of(x)) == x,
{
}

/// Law: inverting a whole channel sequence twice gives the sequence back.
pub proof fn lemma_invert_seq_involution(s: Seq<u8>)
    ensures
        invert_seq(invert_seq(s)) == s,
{
    assert(invert_seq(invert_seq(s)) =~= s);
}

/// Law: the luma of a pixel whose three channels already hold one common
/// value is that value, since the weights sum to 1000 and the scaled sum
/// `x * 1000 / 1000` divides out exactly.
pub proof fn lemma_gray_fixed_point(x: u8)
    ensures
        gray_of(x, x, x) == x,
{
    assert(x as int * 299 + x as int * 587 + x as int * 114 == 1000 * (x as int));
    lemma_div_multiples_vanish(x as int, 1000);
}

/// Law: grayscale is idempotent on a pixel. The first pass leaves the three
/// channels equal, and a second pass returns that common luma unchanged.
pub proof fn lemma_grayscale_idempotent(r: u8, g: u8, b: u8)
    ensures
        gray_of(gray_of(r, g, b), gray_of(r, g, b), gray_of(r, g, b)) == gray_of(r, g, b),
{
    lemma_gray_fixed_point(gray_of(r, g, b));
}

/// Law: grayscale is idempotent on whole channel triples: a second pass over
/// the (equal) output channels reproduces them.
pub proof fn lemma_gray_seq_idempotent(r: Seq<u8>, g: Seq<u8>, b: Seq<u8>)
    requires
        r.len() == g.len() && g.len() == b.len(),
    ensures
        gray_seq(gray_seq(r, g, b), gray_seq(r, g, b), gray_seq(r, g, b)) == gray_seq(r, g, b),
{
    let first = gray_seq(r, g, b);
    assert forall|i: int| 0 <= i < first.len() implies gray_seq(first, first, first)[i] == first[i] by {
        lemma_gray_fixed_point(first[i]);
    }
    assert(gray_seq(first, first, first) =~= first);
}

/// Invert over blocks of 64 lanes; bit-identical to the scalar reference.
pub fn invert_simd_64(r: Vec<u8>, g: Vec<u8>, b: Vec<u8>) -> (res: (Vec<u8>, Vec<u8>, Vec<u8>))
    requires
        r@.len() == g@.len() && g@.len() == b@.len(),
    ensures
        res.0@ == invert_seq(r@),
        res.1@ == invert_seq(g@),
        res.2@ == invert_seq(b@),
{
    invert_lanes(r, g, b, 64)
}

} // verus!
