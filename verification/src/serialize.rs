//! The serializer: concatenates the six header regions, the body, and the
//! end-of-image marker pair into one output buffer.

use vstd::prelude::*;

use crate::image::{JPG, MARKER_HI, MARKER_LO};

verus! {

/// Appends every byte of `src` to `dst`, in order.
fn push_all(dst: &mut Vec<u8>, src: &Vec<u8>)
    ensures
        final(dst)@ == old(dst)@ + src@,
{
    let mut k: usize = 0;
    while k < src.len()
        invariant
            k <= src@.len(),
            dst@ == old(dst)@ + src@.subrange(0, k as int),
        decreases src@.len() - k,
    {
        let b = src[k];
        dst.push(b);
        proof {
            assert(src@.subrange(0, k as int + 1) =~= src@.subrange(0, k as int).push(
                src@[k as int],
            ));
            assert(old(dst)@ + src@.subrange(0, k as int + 1) =~= (old(dst)@ + src@.subrange(
                0,
                k as int,
            )).push(src@[k as int]));
        }
        k = k + 1;
    }
    proof {
        assert(src@.subrange(0, src@.len() as int) =~= src@);
    }
}

/// Reserializes an image: the six header regions in order, then the body,
/// then the end-of-image marker pair. The output length is the sum of the
/// region lengths plus two marker bytes.
pub fn create_binary(jpg: JPG) -> (bytes: Vec<u8>)
    ensures
        bytes@ == jpg.serialized(),
        bytes@.len() == jpg.soi@.len() + jpg.app0@.len() + jpg.dqt@.len() + jpg.sof0@.len()
            + jpg.dht@.len() + jpg.sos@.len() + jpg.image@.len() + 2,
{
    let mut bytes: Vec<u8> = Vec::new();
    push_all(&mut bytes, &jpg.soi);
    push_all(&mut bytes, &jpg.app0);
    push_all(&mut bytes, &jpg.dqt);
    push_all(&mut bytes, &jpg.sof0);
    push_all(&mut bytes, &jpg.dht);
    push_all(&mut bytes, &jpg.sos);
    push_all(&mut bytes, &jpg.image);
    bytes.push(MARKER_HI);
    bytes.push(MARKER_LO);
    proof {
        assert(bytes@ =~= jpg.serialized());
    }
    bytes
}

} // verus!
