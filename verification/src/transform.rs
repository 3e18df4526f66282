//! The body transformer: a pure per-byte substitution that rewrites every
//! sentinel byte and leaves every other byte, and all header regions,
//! unchanged.

use vstd::prelude::*;

use crate::image::JPG;

verus! {

/// Byte value targeted by the transform.
pub const SENTINEL: u8 = 0xE8;

/// What the transform does to one byte: the sentinel value becomes the
/// sentinel minus one; every other value passes through unchanged.
pub open spec fn spec_f(b: u8) -> u8 {
    if b == SENTINEL {
        (SENTINEL - 1) as u8
    } else {
        b
    }
}

/// The transform applied to a whole body, byte by byte.
pub open spec fn transformed(body: Seq<u8>) -> Seq<u8> {
    body.map_values(|b: u8| spec_f(b))
}

/// How a glitched image relates to the one it was made from: every header
/// region is copied through unchanged and the body is transformed byte by
/// byte.
pub open spec fn glitched(out: JPG, jpg: JPG) -> bool {
    &&& out.soi@ == jpg.soi@
    &&& out.app0@ == jpg.app0@
    &&& out.dqt@ == jpg.dqt@
    &&& out.sof0@ == jpg.sof0@
    &&& out.dht@ == jpg.dht@
    &&& out.sos@ == jpg.sos@
    &&& out.image@ == transformed(jpg.image@)
}

/// Transforms one body byte: the sentinel value is replaced by the value
/// one below it, and every other value is returned unchanged.
pub fn f(b: &u8) -> (r: u8)
    ensures
        r == spec_f(*b),
{
    if *b == SENTINEL {
        *b - 1
    } else {
        *b
    }
}

/// Applies the per-byte transform to the body of `jpg`, copying every
/// header region through unchanged. The body keeps its length; only values
/// equal to the sentinel change.
pub fn break_jpg(jpg: JPG) -> (r: JPG)
    ensures
        glitched(r, jpg),
        r.image@.len() == jpg.image@.len(),
        jpg.wf() ==> r.wf(),
{
    let mut broken: Vec<u8> = Vec::new();
    let mut k: usize = 0;
    while k < jpg.image.len()
        invariant
            k <= jpg.image@.len(),
            broken@.len() == k,
            forall|j: int| 0 <= j < k ==> broken@[j] == spec_f(jpg.image@[j]),
        decreases jpg.image@.len() - k,
    {
        let b = jpg.image[k];
        broken.push(f(&b));
        k = k + 1;
    }
    proof {
        assert(broken@ =~= transformed(jpg.image@));
    }
    JPG {
        soi: jpg.soi,
        app0: jpg.app0,
        dqt: jpg.dqt,
        sof0: jpg.sof0,
        dht: jpg.dht,
        sos: jpg.sos,
        image: broken,
    }
}

} // verus!
