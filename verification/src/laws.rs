//! The library's laws: how parsing, transforming and serializing relate,
//! proved once for every input.

use vstd::prelude::*;

use crate::image::{HEADER_TOTAL, JPG, MARKER_HI, MARKER_LO, SOI_LEN};
use crate::parse::{body_of, parsed_from, scan_truncated};
use crate::transform::{glitched, transformed, SENTINEL};

verus! {

/// A scanned body is the exact prefix of the bytes it was scanned from, and
/// the two bytes right after it are the end-of-image marker pair.
pub proof fn lemma_body_of_prefix(rest: Seq<u8>, b: Seq<u8>)
    requires
        body_of(rest) == Some(b),
    ensures
        b.len() + 2 <= rest.len(),
        b == rest.subrange(0, b.len() as int),
        rest[b.len() as int] == MARKER_HI,
        rest[b.len() as int + 1] == MARKER_LO,
    decreases rest.len(),
{
    if rest.len() < 2 {
        // no body can come from fewer than two bytes
    } else if rest[0] == MARKER_HI && rest[1] == MARKER_LO {
        assert(b =~= rest.subrange(0, 0));
    } else {
        let t = body_of(rest.skip(2))->Some_0;
        lemma_body_of_prefix(rest.skip(2), t);
        assert(b == seq![rest[0], rest[1]] + t);
        assert(b =~= rest.subrange(0, b.len() as int));
        assert(rest.skip(2)[t.len() as int] == rest[t.len() as int + 2]);
        assert(rest.skip(2)[t.len() as int + 1] == rest[t.len() as int + 3]);
    }
}

/// Round-trip identity of the headers: a successfully parsed image
/// reserializes, byte for byte, to the input's prefix up to and including
/// the first end-of-image marker pair; when the input ends at that marker,
/// the whole input is reproduced.
pub proof fn lemma_round_trip(input: Seq<u8>, jpg: JPG)
    requires
        parsed_from(jpg, input),
    ensures
        HEADER_TOTAL + jpg.image@.len() + 2 <= input.len(),
        jpg.serialized() == input.subrange(0, HEADER_TOTAL + jpg.image@.len() + 2),
        input.len() == HEADER_TOTAL + jpg.image@.len() + 2 ==> jpg.serialized() == input,
{
    lemma_body_of_prefix(input.skip(HEADER_TOTAL as int), jpg.image@);
    let end = HEADER_TOTAL + jpg.image@.len() + 2;
    assert(jpg.serialized() =~= input.subrange(0, end as int));
    if input.len() == end {
        assert(input.subrange(0, end as int) =~= input);
    }
}

/// With no sentinel byte present, the transform is the identity.
pub proof fn lemma_transform_identity(body: Seq<u8>)
    requires
        forall|i: int| 0 <= i < body.len() ==> body[i] != SENTINEL,
    ensures
        transformed(body) == body,
{
    assert(transformed(body) =~= body);
}

/// Targeted substitution: the transform preserves the length of its input,
/// rewrites every sentinel byte to the value one below it, and leaves every
/// other byte unchanged.
pub proof fn lemma_targeted_substitution(body: Seq<u8>)
    ensures
        transformed(body).len() == body.len(),
        forall|i: int|
            0 <= i < body.len() ==> transformed(body)[i] == (if body[i] == SENTINEL {
                (SENTINEL - 1) as u8
            } else {
                body[i]
            }),
{
}

/// Length preservation: a glitched image serializes to exactly as many
/// bytes as the image it was made from.
pub proof fn lemma_length_preserved(jpg: JPG, out: JPG)
    requires
        glitched(out, jpg),
    ensures
        out.serialized().len() == jpg.serialized().len(),
{
}

/// Length preservation against the input: when the input ends at the first
/// marker pair, parsing, transforming and serializing yields exactly as
/// many bytes as came in, whether or not any sentinel byte is present.
pub proof fn lemma_output_length_matches_input(input: Seq<u8>, jpg: JPG, out: JPG)
    requires
        parsed_from(jpg, input),
        glitched(out, jpg),
        input.len() == HEADER_TOTAL + jpg.image@.len() + 2,
    ensures
        out.serialized().len() == input.len(),
{
    lemma_round_trip(input, jpg);
    lemma_length_preserved(jpg, out);
}

/// Round trip with the transform applied: when the input ends at the first
/// marker pair and its body holds no sentinel byte, parsing, transforming
/// and serializing reproduce the input byte for byte.
pub proof fn lemma_round_trip_with_transform(input: Seq<u8>, jpg: JPG, out: JPG)
    requires
        parsed_from(jpg, input),
        glitched(out, jpg),
        input.len() == HEADER_TOTAL + jpg.image@.len() + 2,
        forall|i: int| 0 <= i < jpg.image@.len() ==> jpg.image@[i] != SENTINEL,
    ensures
        out.serialized() == input,
{
    lemma_transform_identity(jpg.image@);
    assert(out.serialized() =~= jpg.serialized());
    lemma_round_trip(input, jpg);
}

/// Header/body isolation, one direction: the body scan reads only the bytes
/// after the header regions, so two inputs that agree there scan to the
/// same outcome whatever stands in their headers.
pub proof fn lemma_body_scan_ignores_headers(a: Seq<u8>, b: Seq<u8>)
    requires
        a.len() >= HEADER_TOTAL,
        b.len() >= HEADER_TOTAL,
        a.skip(HEADER_TOTAL as int) == b.skip(HEADER_TOTAL as int),
    ensures
        body_of(a.skip(HEADER_TOTAL as int)) == body_of(b.skip(HEADER_TOTAL as int)),
        scan_truncated(a.skip(HEADER_TOTAL as int)) == scan_truncated(b.skip(HEADER_TOTAL as int)),
{
}

/// Header/body isolation, the other direction: the header regions read from
/// an input depend only on its first `HEADER_TOTAL` bytes, so two inputs
/// that agree there yield images with identical header regions whatever
/// their bodies hold.
pub proof fn lemma_headers_ignore_body(a: Seq<u8>, b: Seq<u8>, ja: JPG, jb: JPG)
    requires
        parsed_from(ja, a),
        parsed_from(jb, b),
        a.subrange(0, HEADER_TOTAL as int) == b.subrange(0, HEADER_TOTAL as int),
    ensures
        ja.soi@ == jb.soi@,
        ja.app0@ == jb.app0@,
        ja.dqt@ == jb.dqt@,
        ja.sof0@ == jb.sof0@,
        ja.dht@ == jb.dht@,
        ja.sos@ == jb.sos@,
{
    assert forall|i: int| 0 <= i < HEADER_TOTAL implies a[i] == b[i] by {
        assert(a[i] == a.subrange(0, HEADER_TOTAL as int)[i]);
        assert(b[i] == b.subrange(0, HEADER_TOTAL as int)[i]);
    }
    assert(ja.soi@ =~= jb.soi@);
    assert(ja.app0@ =~= jb.app0@);
    assert(ja.dqt@ =~= jb.dqt@);
    assert(ja.sof0@ =~= jb.sof0@);
    assert(ja.dht@ =~= jb.dht@);
    assert(ja.sos@ =~= jb.sos@);
}

/// Marker exclusion, at the output: the serialized bytes of any image end
/// with exactly the end-of-image marker pair.
pub proof fn lemma_serialized_ends_with_marker(jpg: JPG)
    ensures
        jpg.serialized().len() >= 2,
        jpg.serialized()[jpg.serialized().len() - 2] == MARKER_HI,
        jpg.serialized()[jpg.serialized().len() - 1] == MARKER_LO,
{
    let p = jpg.soi@ + jpg.app0@ + jpg.dqt@ + jpg.sof0@ + jpg.dht@ + jpg.sos@ + jpg.image@;
    assert(jpg.serialized() == p + seq![MARKER_HI, MARKER_LO]);
    assert(jpg.serialized()[p.len() as int] == MARKER_HI);
    assert(jpg.serialized()[p.len() as int + 1] == MARKER_LO);
}

/// Marker exclusion, in the body: the scan stops at the first marker pair,
/// so a parsed body never holds the marker pair at any scanned (pair
/// aligned) position.
pub proof fn lemma_body_no_aligned_marker(rest: Seq<u8>, b: Seq<u8>)
    requires
        body_of(rest) == Some(b),
    ensures
        b.len() % 2 == 0,
        forall|i: int|
            0 <= i && i + 1 < b.len() && i % 2 == 0 ==> !(#[trigger] b[i] == MARKER_HI && b[i + 1]
                == MARKER_LO),
    decreases rest.len(),
{
    if rest.len() < 2 {
        // no body can come from fewer than two bytes
    } else if rest[0] == MARKER_HI && rest[1] == MARKER_LO {
        // the body is empty
    } else {
        let t = body_of(rest.skip(2))->Some_0;
        lemma_body_no_aligned_marker(rest.skip(2), t);
        assert(b == seq![rest[0], rest[1]] + t);
        assert forall|i: int|
            0 <= i && i + 1 < b.len() && i % 2 == 0 implies !(#[trigger] b[i] == MARKER_HI && b[i
            + 1] == MARKER_LO) by {
            if i == 0 {
                assert(b[0] == rest[0] && b[1] == rest[1]);
            } else {
                assert(b[i] == t[i - 2]);
                assert(b[i + 1] == t[i - 1]);
                assert((i - 2) % 2 == 0);
            }
        }
    }
}

} // verus!
