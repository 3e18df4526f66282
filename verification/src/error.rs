//! The parse failure taxonomy: one kind per header region that could not be
//! read in full, plus two body-level kinds.

use vstd::prelude::*;

verus! {

/// Why an input buffer failed to parse. The first six kinds each name the
/// header region at which the input ran out of bytes; the last two concern
/// the body scan.
#[derive(Clone, Copy, Debug, PartialEq, Eq, Structural)]
pub enum JPGError {
    /// The input is too short to hold the start-of-image marker region.
    SOINotFoundError,
    /// The input ends inside the application segment region.
    APP0NotFoundError,
    /// The input ends inside the quantization-table region.
    DQTNotFoundError,
    /// The input ends inside the frame-header region.
    SOF0NotFoundError,
    /// The input ends inside the Huffman-table region.
    DHTNotFoundError,
    /// The input ends inside the scan-header region.
    SOSNotFoundError,
    /// The headers are complete but the end-of-image marker pair never
    /// occurs at a scanned position.
    ImageBodyNotFound,
    /// A scanned body byte has no successor: the byte stream after the
    /// headers ends mid-pair before any marker.
    BrokenJpgFileError,
}

impl JPGError {
    /// The diagnostic text of each failure kind.
    pub open spec fn message_spec(self) -> Seq<char> {
        match self {
            JPGError::SOINotFoundError => "SOI is not found error"@,
            JPGError::APP0NotFoundError => "APP0 is not found error"@,
            JPGError::DQTNotFoundError => "DQT is not found error"@,
            JPGError::SOF0NotFoundError => "SOF0 is not found error"@,
            JPGError::DHTNotFoundError => "DHT is not found error"@,
            JPGError::SOSNotFoundError => "SOS is not found error"@,
            JPGError::ImageBodyNotFound => "ImageBody is not found error"@,
            JPGError::BrokenJpgFileError => "Broken Jpeg file"@,
        }
    }

    /// A human-readable diagnostic for this failure kind.
    pub fn message(&self) -> (m: &'static str)
        ensures
            m@ == self.message_spec(),
    {
        match self {
            JPGError::SOINotFoundError => "SOI is not found error",
            JPGError::APP0NotFoundError => "APP0 is not found error",
            JPGError::DQTNotFoundError => "DQT is not found error",
            JPGError::SOF0NotFoundError => "SOF0 is not found error",
            JPGError::DHTNotFoundError => "DHT is not found error",
            JPGError::SOSNotFoundError => "SOS is not found error",
            JPGError::ImageBodyNotFound => "ImageBody is not found error",
            JPGError::BrokenJpgFileError => "Broken Jpeg file",
        }
    }
}

} // verus!
