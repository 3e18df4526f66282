//! The parsed image record: six fixed-width header regions and a
//! variable-length body.

use vstd::prelude::*;

verus! {

/// Width in bytes of the start-of-image marker region.
pub const SOI_LEN: usize = 2;

/// Width in bytes of the application segment region.
pub const APP0_LEN: usize = 18;

/// Width in bytes of the quantization-table region.
pub const DQT_LEN: usize = 138;

/// Width in bytes of the frame-header region.
pub const SOF0_LEN: usize = 19;

/// Width in bytes of the Huffman-table region.
pub const DHT_LEN: usize = 432;

/// Width in bytes of the scan-header region.
pub const SOS_LEN: usize = 14;

/// Offset of the application segment region within an input buffer.
pub const APP0_START: usize = SOI_LEN;

/// Offset of the quantization-table region within an input buffer.
pub const DQT_START: usize = APP0_START + APP0_LEN;

/// Offset of the frame-header region within an input buffer.
pub const SOF0_START: usize = DQT_START + DQT_LEN;

/// Offset of the Huffman-table region within an input buffer.
pub const DHT_START: usize = SOF0_START + SOF0_LEN;

/// Offset of the scan-header region within an input buffer.
pub const SOS_START: usize = DHT_START + DHT_LEN;

/// Total width of all six header regions; the body begins here.
pub const HEADER_TOTAL: usize = SOS_START + SOS_LEN;

/// First byte of the end-of-image marker pair.
pub const MARKER_HI: u8 = 0xFF;

/// Second byte of the end-of-image marker pair.
pub const MARKER_LO: u8 = 0xD9;

/// One image, split into its six fixed-width header regions and its
/// variable-length body. The headers are opaque byte runs, copied through
/// unchanged by every operation; the body excludes the trailing
/// end-of-image marker pair, which is re-appended on serialization.
#[derive(Clone)]
pub struct JPG {
    /// Start-of-image marker region, `SOI_LEN` bytes.
    pub soi: Vec<u8>,
    /// Application segment region, `APP0_LEN` bytes.
    pub app0: Vec<u8>,
    /// Quantization-table region, `DQT_LEN` bytes.
    pub dqt: Vec<u8>,
    /// Frame-header region, `SOF0_LEN` bytes.
    pub sof0: Vec<u8>,
    /// Huffman-table region, `DHT_LEN` bytes.
    pub dht: Vec<u8>,
    /// Scan-header region, `SOS_LEN` bytes.
    pub sos: Vec<u8>,
    /// Entropy-coded body, excluding the end-of-image marker.
    pub image: Vec<u8>,
}

impl JPG {
    /// Every header region has exactly its fixed width.
    pub open spec fn wf(self) -> bool {
        &&& self.soi@.len() == SOI_LEN
        &&& self.app0@.len() == APP0_LEN
        &&& self.dqt@.len() == DQT_LEN
        &&& self.sof0@.len() == SOF0_LEN
        &&& self.dht@.len() == DHT_LEN
        &&& self.sos@.len() == SOS_LEN
    }

    /// The byte stream an image reserializes to: the six header regions in
    /// order, then the body, then the end-of-image marker pair.
    pub open spec fn serialized(self) -> Seq<u8> {
        self.soi@ + self.app0@ + self.dqt@ + self.sof0@ + self.dht@ + self.sos@
            + self.image@ + seq![MARKER_HI, MARKER_LO]
    }
}

} // verus!
