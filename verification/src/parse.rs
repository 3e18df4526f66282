//! The segment splitter: reads six fixed-width header regions off the front
//! of an input buffer, then scans the remainder two bytes at a time for the
//! end-of-image marker pair, collecting the body.

use vstd::prelude::*;

use crate::error::JPGError;
use crate::image::{
    APP0_LEN, APP0_START, DHT_LEN, DHT_START, DQT_LEN, DQT_START, HEADER_TOTAL, JPG, MARKER_HI,
    MARKER_LO, SOF0_LEN, SOF0_START, SOI_LEN, SOS_LEN, SOS_START,
};

verus! {

/// The body that a pairwise scan of `rest` yields: pairs are consumed from
/// the front until the first pair equal to the end-of-image marker, which is
/// excluded. `None` when the scan runs out of bytes, whether mid-pair or
/// before any marker pair occurs.
pub open spec fn body_of(rest: Seq<u8>) -> Option<Seq<u8>>
    decreases rest.len(),
{
    if rest.len() < 2 {
        None
    } else if rest[0] == MARKER_HI && rest[1] == MARKER_LO {
        Some(Seq::empty())
    } else {
        match body_of(rest.skip(2)) {
            Some(b) => Some(seq![rest[0], rest[1]] + b),
            None => None,
        }
    }
}

/// Whether a pairwise scan of `rest` ends on a byte with no successor: a
/// lone trailing byte reached before any marker pair. Distinguishes the
/// truncated-body failure from the marker-never-found failure.
pub open spec fn scan_truncated(rest: Seq<u8>) -> bool
    decreases rest.len(),
{
    if rest.len() == 0 {
        false
    } else if rest.len() == 1 {
        true
    } else if rest[0] == MARKER_HI && rest[1] == MARKER_LO {
        false
    } else {
        scan_truncated(rest.skip(2))
    }
}

/// What a successful parse of `input` yields: each header region is the
/// fixed-width slice of `input` at its offset, and the body is what the
/// pairwise scan of the remainder finds before the first marker pair.
pub open spec fn parsed_from(jpg: JPG, input: Seq<u8>) -> bool {
    &&& input.len() >= HEADER_TOTAL
    &&& jpg.soi@ == input.subrange(0, SOI_LEN as int)
    &&& jpg.app0@ == input.subrange(APP0_START as int, DQT_START as int)
    &&& jpg.dqt@ == input.subrange(DQT_START as int, SOF0_START as int)
    &&& jpg.sof0@ == input.subrange(SOF0_START as int, DHT_START as int)
    &&& jpg.dht@ == input.subrange(DHT_START as int, SOS_START as int)
    &&& jpg.sos@ == input.subrange(SOS_START as int, HEADER_TOTAL as int)
    &&& body_of(input.skip(HEADER_TOTAL as int)) == Some(jpg.image@)
}

/// Copies `len` bytes of `binary` starting at `start` into a fresh buffer.
fn read_region(binary: &Vec<u8>, start: usize, len: usize) -> (r: Vec<u8>)
    requires
        start + len <= binary@.len(),
    ensures
        r@ == binary@.subrange(start as int, start as int + len as int),
{
    let n = binary.len();
    let mut out: Vec<u8> = Vec::new();
    let mut i: usize = 0;
    while i < len
        invariant
            n == binary@.len(),
            start + len <= n,
            i <= len,
            out@ == binary@.subrange(start as int, start as int + i as int),
        decreases len - i,
    {
        let b = binary[start + i];
        out.push(b);
        proof {
            assert(binary@.subrange(start as int, start as int + i as int + 1) =~= binary@
                .subrange(start as int, start as int + i as int)
                .push(binary@[start as int + i as int]));
        }
        i = i + 1;
    }
    out
}

/// Splits `binary` into the six fixed-width header regions and the body.
///
/// Fails with the region-specific error kind as soon as fewer bytes remain
/// than the next header region requires; after the headers, scans the
/// remainder in pairs for the end-of-image marker, failing with
/// `BrokenJpgFileError` on a lone trailing byte and with `ImageBodyNotFound`
/// when the marker pair never occurs at a scanned position.
#[verifier::loop_isolation(false)]
pub fn parse(binary: &Vec<u8>) -> (r: Result<JPG, JPGError>)
    ensures
        match r {
            Ok(jpg) => jpg.wf() && parsed_from(jpg, binary@),
            Err(e) => match e {
                JPGError::SOINotFoundError => binary@.len() < SOI_LEN,
                JPGError::APP0NotFoundError => SOI_LEN <= binary@.len() < DQT_START,
                JPGError::DQTNotFoundError => DQT_START <= binary@.len() < SOF0_START,
                JPGError::SOF0NotFoundError => SOF0_START <= binary@.len() < DHT_START,
                JPGError::DHTNotFoundError => DHT_START <= binary@.len() < SOS_START,
                JPGError::SOSNotFoundError => SOS_START <= binary@.len() < HEADER_TOTAL,
                JPGError::BrokenJpgFileError => binary@.len() >= HEADER_TOTAL
                    && scan_truncated(binary@.skip(HEADER_TOTAL as int)),
                JPGError::ImageBodyNotFound => binary@.len() >= HEADER_TOTAL && !scan_truncated(
                    binary@.skip(HEADER_TOTAL as int),
                ) && body_of(binary@.skip(HEADER_TOTAL as int)) is None,
            },
        },
{
    let n = binary.len();
    if n < SOI_LEN {
        return Err(JPGError::SOINotFoundError);
    }
    if n < DQT_START {
        return Err(JPGError::APP0NotFoundError);
    }
    if n < SOF0_START {
        return Err(JPGError::DQTNotFoundError);
    }
    if n < DHT_START {
        return Err(JPGError::SOF0NotFoundError);
    }
    if n < SOS_START {
        return Err(JPGError::DHTNotFoundError);
    }
    if n < HEADER_TOTAL {
        return Err(JPGError::SOSNotFoundError);
    }
    let soi = read_region(binary, 0, SOI_LEN);
    let app0 = read_region(binary, APP0_START, APP0_LEN);
    let dqt = read_region(binary, DQT_START, DQT_LEN);
    let sof0 = read_region(binary, SOF0_START, SOF0_LEN);
    let dht = read_region(binary, DHT_START, DHT_LEN);
    let sos = read_region(binary, SOS_START, SOS_LEN);
    proof {
        assert(soi@.len() == SOI_LEN);
        assert(app0@.len() == APP0_LEN);
        assert(dqt@.len() == DQT_LEN);
        assert(sof0@.len() == SOF0_LEN);
        assert(dht@.len() == DHT_LEN);
        assert(sos@.len() == SOS_LEN);
        assert(app0@ == binary@.subrange(APP0_START as int, DQT_START as int));
        assert(dqt@ == binary@.subrange(DQT_START as int, SOF0_START as int));
        assert(sof0@ == binary@.subrange(SOF0_START as int, DHT_START as int));
        assert(dht@ == binary@.subrange(DHT_START as int, SOS_START as int));
        assert(sos@ == binary@.subrange(SOS_START as int, HEADER_TOTAL as int));
    }

    let ghost rest0: Seq<u8> = binary@.skip(HEADER_TOTAL as int);
    let mut image: Vec<u8> = Vec::new();
    let mut i: usize = HEADER_TOTAL;
    loop
        invariant
            n == binary@.len(),
            HEADER_TOTAL <= i <= n,
            rest0 == binary@.skip(HEADER_TOTAL as int),
            scan_truncated(rest0) == scan_truncated(binary@.skip(i as int)),
            body_of(rest0) == match body_of(binary@.skip(i as int)) {
                Some(b) => Some(image@ + b),
                None => None::<Seq<u8>>,
            },
        decreases n - i,
    {
        let ghost rest_i: Seq<u8> = binary@.skip(i as int);
        if i >= n {
            proof {
                assert(rest_i =~= Seq::<u8>::empty());
            }
            return Err(JPGError::ImageBodyNotFound);
        }
        if i + 1 >= n {
            proof {
                assert(rest_i.len() == 1);
            }
            return Err(JPGError::BrokenJpgFileError);
        }
        let b = binary[i];
        let nb = binary[i + 1];
        if b == MARKER_HI && nb == MARKER_LO {
            proof {
                assert(rest_i[0] == b && rest_i[1] == nb);
                assert(body_of(rest_i) == Some(Seq::<u8>::empty()));
                assert(image@ + Seq::<u8>::empty() =~= image@);
            }
            return Ok(JPG { soi, app0, dqt, sof0, dht, sos, image });
        }
        let ghost img0: Seq<u8> = image@;
        image.push(b);
        image.push(nb);
        proof {
            assert(rest_i.skip(2) =~= binary@.skip(i as int + 2));
            assert(image@ =~= img0 + seq![b, nb]);
            match body_of(binary@.skip(i as int + 2)) {
                Some(t) => {
                    assert(body_of(rest_i) == Some(seq![b, nb] + t));
                    assert((img0 + seq![b, nb]) + t =~= img0 + (seq![b, nb] + t));
                },
                None => {},
            }
        }
        i = i + 2;
    }
}

} // verus!
