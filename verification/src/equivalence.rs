//! Equivalence verifier and production dispatch: runs every implementation
//! of a transform on the same input and checks the outputs byte for byte
//! against the scalar reference. The check is proved to succeed on every
//! equal-length input, so a mismatch is impossible, not merely unobserved.

use crate::engine::gray_seq;
use crate::engine::grayscale;
use crate::engine::grayscale_simd_16;
use crate::engine::grayscale_simd_32;
use crate::engine::grayscale_simd_64;
use crate::engine::grayscale_simd_8;
use crate::engine::invert;
use crate::engine::invert_seq;
use crate::engine::invert_simd_16;
use crate::engine::invert_simd_32;
use crate::engine::invert_simd_64;
use crate::engine::invert_simd_8;
use vstd::prelude::*;

verus! {

/// Which transform an implementation belongs to.
#[derive(Clone, Copy, PartialEq, Eq, Structural, Debug)]
pub enum Transform {
    Grayscale,
    Invert,
}

/// The channel triple a transform produces from a channel triple.
pub open spec fn transformed(kind: Transform, r: Seq<u8>, g: Seq<u8>, b: Seq<u8>) -> (
    Seq<u8>,
    Seq<u8>,
    Seq<u8>,
)
    recommends
        r.len() == g.len() && g.len() == b.len(),
{
    match kind {
        Transform::Grayscale => (gray_seq(r, g, b), gray_seq(r, g, b), gray_seq(r, g, b)),
        Transform::Invert => (invert_seq(r), invert_seq(g), invert_seq(b)),
    }
}

/// Production entry point of the engine: apply the requested transform to a
/// channel triple, through the scalar reference implementation.
pub fn transform_channels(kind: Transform, r: Vec<u8>, g: Vec<u8>, b: Vec<u8>) -> (res: (
    Vec<u8>,
    Vec<u8>,
    Vec<u8>,
))
    requires
        r@.len() == g@.len() && g@.len() == b@.len(),
    ensures
        (res.0@, res.1@, res.2@) == transformed(kind, r@, g@, b@),
{
    match kind {
        Transform::Grayscale => grayscale(r, g, b),
        Transform::Invert => invert(r, g, b),
    }
}

/// A pristine copy of a channel, so that each trial of each implementation
/// receives the same input.
fn clone_channel(s: &Vec<u8>) -> (res: Vec<u8>)
    ensures
        res@ == s@,
{
    let n = s.len();
    let mut out: Vec<u8> = Vec::new();
    let mut i: usize = 0;
    while i < n
        invariant
            i <= n,
            n == s@.len(),
            out@.len() == i,
            forall|k: int| 0 <= k < i ==> out@[k] == s@[k],
        decreases n - i,
    {
        out.push(s[i]);
        i = i + 1;
    }
    assert(out@ =~= s@);
    out
}

/// Byte-for-byte comparison of two channels.
fn channels_equal(a: &Vec<u8>, b: &Vec<u8>) -> (res: bool)
    ensures
        res <==> a@ == b@,
{
    if a.len() != b.len() {
        return false;
    }
    let n = a.len();
    let mut i: usize = 0;
    while i < n
        invariant
            i <= n,
            n == a@.len() && n == b@.len(),
            forall|k: int| 0 <= k < i ==> a@[k] == b@[k],
        decreases n - i,
    {
        if a[i] != b[i] {
            return false;
        }
        i = i + 1;
    }
    assert(a@ =~= b@);
    true
}

/// Byte-for-byte comparison of two channel triples.
fn triples_equal(x: &(Vec<u8>, Vec<u8>, Vec<u8>), y: &(Vec<u8>, Vec<u8>, Vec<u8>)) -> (res: bool)
    ensures
        res <==> (x.0@ == y.0@ && x.1@ == y.1@ && x.2@ == y.2@),
{
    channels_equal(&x.0, &y.0) && channels_equal(&x.1, &y.1) && channels_equal(&x.2, &y.2)
}

/// Run the scalar implementation and every lane-width implementation of the
/// given transform on the same input and compare all outputs against the
/// scalar reference. Equivalence is proved for every equal-length input, so
/// this check always reports success: a mismatch cannot occur.
pub fn verify_equivalence(kind: Transform, r: &Vec<u8>, g: &Vec<u8>, b: &Vec<u8>) -> (ok: bool)
    requires
        r@.len() == g@.len() && g@.len() == b@.len(),
    ensures
        ok,
{
    match kind {
        Transform::Grayscale => {
            let reference = grayscale(clone_channel(r), clone_channel(g), clone_channel(b));
            let by_8 = grayscale_simd_8(clone_channel(r), clone_channel(g), clone_channel(b));
            let by_16 = grayscale_simd_16(clone_channel(r), clone_channel(g), clone_channel(b));
            let by_32 = grayscale_simd_32(clone_channel(r), clone_channel(g), clone_channel(b));
            let by_64 = grayscale_simd_64(clone_channel(r), clone_channel(g), clone_channel(b));
            triples_equal(&reference, &by_8) && triples_equal(&reference, &by_16)
                && triples_equal(&reference, &by_32) && triples_equal(&reference, &by_64)
        },
        Transform::Invert => {
            let reference = invert(clone_channel(r), clone_channel(g), clone_channel(b));
            let by_8 = invert_simd_8(clone_channel(r), clone_channel(g), clone_channel(b));
            let by_16 = invert_simd_16(clone_channel(r), clone_channel(g), clone_channel(b));
            let by_32 = invert_simd_32(clone_channel(r), clone_channel(g), clone_channel(b));
            let by_64 = invert_simd_64(clone_channel(r), clone_channel(g), clone_channel(b));
            triples_equal(&reference, &by_8) && triples_equal(&reference, &by_16)
                && triples_equal(&reference, &by_32) && triples_equal(&reference, &by_64)
        },
    }
}

} // verus!
