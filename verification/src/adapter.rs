//! Pixel buffer adapter: converts between a rectangular RGB image buffer and
//! the flat, channel-separated representation (three equal-length sequences
//! of 8-bit values) that the transform engine works on. Both directions are
//! lossless and order-preserving.

use vstd::prelude::*;

verus! {

/// One pixel: exactly three 8-bit channel values. No alpha is modeled;
/// alpha is synthesized as fully opaque only when an image is encoded.
#[derive(Clone, Copy, PartialEq, Eq, Structural, Debug)]
pub struct Rgb {
    pub r: u8,
    pub g: u8,
    pub b: u8,
}

/// A rectangular grid of pixels in row-major order, `width * height` of them.
#[derive(Clone, Debug)]
pub struct ImageBuffer {
    pub width: u32,
    pub height: u32,
    pub pixels: Vec<Rgb>,
}

impl ImageBuffer {
    /// The buffer holds exactly one pixel per grid cell.
    pub open spec fn wf(self) -> bool {
        self.pixels@.len() == self.width as int * self.height as int
    }
}

/// Error raised when channel sequences of unequal length, or of a length
/// other than `width * height`, are handed to buffer reconstruction.
#[derive(Clone, Copy, PartialEq, Eq, Structural, Debug)]
pub enum AdapterError {
    DimensionMismatch,
}

/// Pixels built by zipping three equal-length channel sequences.
pub open spec fn pixels_of(r: Seq<u8>, g: Seq<u8>, b: Seq<u8>) -> Seq<Rgb>
    recommends
        r.len() == g.len() && g.len() == b.len(),
{
    Seq::new(r.len(), |i: int| Rgb { r: r[i], g: g[i], b: b[i] })
}

/// The red channel of a pixel sequence.
pub open spec fn reds_of(p: Seq<Rgb>) -> Seq<u8> {
    Seq::new(p.len(), |i: int| p[i].r)
}

/// The green channel of a pixel sequence.
pub open spec fn greens_of(p: Seq<Rgb>) -> Seq<u8> {
    Seq::new(p.len(), |i: int| p[i].g)
}

/// The blue channel of a pixel sequence.
pub open spec fn blues_of(p: Seq<Rgb>) -> Seq<u8> {
    Seq::new(p.len(), |i: int| p[i].b)
}

/// Split a flat pixel buffer into three separate channel sequences, in the
/// same row-major order.
pub fn convert_to_channels(buf: Vec<Rgb>) -> (res: (Vec<u8>, Vec<u8>, Vec<u8>))
    ensures
        res.0@ == reds_of(buf@),
        res.1@ == greens_of(buf@),
        res.2@ == blues_of(buf@),
{
    let n = buf.len();
    let mut r: Vec<u8> = Vec::new();
    let mut g: Vec<u8> = Vec::new();
    let mut b: Vec<u8> = Vec::new();
    let mut i: usize = 0;
    while i < n
        invariant
            i <= n,
            n == buf@.len(),
            r@.len() == i && g@.len() == i && b@.len() == i,
            forall|k: int| 0 <= k < i ==> r@[k] == buf@[k].r,
            forall|k: int| 0 <= k < i ==> g@[k] == buf@[k].g,
            forall|k: int| 0 <= k < i ==> b@[k] == buf@[k].b,
        decreases n - i,
    {
        let pixel = buf[i];
        r.push(pixel.r);
        g.push(pixel.g);
        b.push(pixel.b);
        i = i + 1;
    }
    assert(r@ =~= reds_of(buf@));
    assert(g@ =~= greens_of(buf@));
    assert(b@ =~= blues_of(buf@));
    (r, g, b)
}

/// Interleave three equal-length channel sequences back into one flat pixel
/// buffer, in the same row-major order.
pub fn convert_from_channels(r: Vec<u8>, g: Vec<u8>, b: Vec<u8>) -> (res: Vec<Rgb>)
    requires
        r@.len() == g@.len() && g@.len() == b@.len(),
    ensures
        res@ == pixels_of(r@, g@, b@),
{
    let n = r.len();
    let mut out: Vec<Rgb> = Vec::new();
    let mut i: usize = 0;
    while i < n
        invariant
            i <= n,
            n == r@.len() && n == g@.len() && n == b@.len(),
            out@.len() == i,
            forall|k: int| 0 <= k < i ==> out@[k] == (Rgb { r: r@[k], g: g@[k], b: b@[k] }),
        decreases n - i,
    {
        out.push(Rgb { r: r[i], g: g[i], b: b[i] });
        i = i + 1;
    }
    assert(out@ =~= pixels_of(r@, g@, b@));
    out
}

/// Rebuild a rectangular buffer from three channel sequences. Succeeds
/// exactly when the three lengths are equal and match `width * height`;
/// otherwise nothing is built and `DimensionMismatch` is reported.
pub fn from_channels(r: Vec<u8>, g: Vec<u8>, b: Vec<u8>, width: u32, height: u32) -> (res: Result<
    ImageBuffer,
    AdapterError,
>)
    ensures
        res is Ok <==> (r@.len() == g@.len() && g@.len() == b@.len() && r@.len() == width as int
            * height as int),
        res matches Ok(buf) ==> buf.wf() && buf.width == width && buf.height == height
            && buf.pixels@ == pixels_of(r@, g@, b@),
        res is Err ==> res == Result::<ImageBuffer, AdapterError>::Err(
            AdapterError::DimensionMismatch,
        ),
{
    proof {
        assert(width as int * height as int <= 0xffff_ffff * 0xffff_ffff) by (nonlinear_arith)
            requires
                width as int <= 0xffff_ffff,
                height as int <= 0xffff_ffff,
        ;
    }
    let cells: u64 = (width as u64) * (height as u64);
    if r.len() != g.len() || g.len() != b.len() || (r.len() as u64) != cells {
        return Err(AdapterError::DimensionMismatch);
    }
    let pixels = convert_from_channels(r, g, b);
    Ok(ImageBuffer { width, height, pixels })
}

/// Flatten a rectangular buffer into its three channel sequences, each of
/// length `width * height`, in row-major order.
pub fn to_channels(buf: ImageBuffer) -> (res: (Vec<u8>, Vec<u8>, Vec<u8>))
    ensures
        res.0@ == reds_of(buf.pixels@),
        res.1@ == greens_of(buf.pixels@),
        res.2@ == blues_of(buf.pixels@),
{
    convert_to_channels(buf.pixels)
}

/// Law: splitting the pixels built from three equal-length channel sequences
/// returns exactly those sequences; the adapter round trip is the identity
/// on channels.
pub proof fn lemma_channels_round_trip(r: Seq<u8>, g: Seq<u8>, b: Seq<u8>)
    requires
        r.len() == g.len() && g.len() == b.len(),
    ensures
        reds_of(pixels_of(r, g, b)) == r,
        greens_of(pixels_of(r, g, b)) == g,
        blues_of(pixels_of(r, g, b)) == b,
{
    assert(reds_of(pixels_of(r, g, b)) =~= r);
    assert(greens_of(pixels_of(r, g, b)) =~= g);
    assert(blues_of(pixels_of(r, g, b)) =~= b);
}

} // verus!
