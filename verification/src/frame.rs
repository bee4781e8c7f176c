//! The frame: downlink format, body and parity, and the decoder of a buffer.

use vstd::prelude::*;

use crate::adsb::{ADSBView, ControlField, ControlFieldView, ADSB};
use crate::bits::{bits_value, BitReader};
use crate::error::{viewed, DecodeError};
use crate::types::Capability;

verus! {

/// The number of bytes in a frame.
pub const FRAME_BYTES: usize = 14;

/// The body of a frame, by its downlink format.
#[derive(Debug, Clone, PartialEq, Eq)]
pub enum DF {
    /// Downlink format 17: an extended squitter from a transponder.
    ADSB(ADSB),
    /// Downlink format 18: an extended squitter from another device.
    TisB(ControlField),
}

/// Such a body taken by its view.
pub enum DFView {
    ADSB(ADSBView),
    TisB(ControlFieldView),
}

impl View for DF {
    type V = DFView;

    open spec fn view(&self) -> DFView {
        match self {
            DF::ADSB(body) => DFView::ADSB(body@),
            DF::TisB(body) => DFView::TisB(body@),
        }
    }
}

impl DFView {
    /// The number of bits that the downlink format and the body take on
    /// the wire.
    pub open spec fn bit_width(self) -> nat {
        match self {
            DFView::ADSB(body) => (5 + body.bit_width()) as nat,
            DFView::TisB(body) => (5 + body.bit_width()) as nat,
        }
    }
}

impl DF {
    /// The value that stands for the downlink format on the wire.
    pub open spec fn spec_id(&self) -> u8 {
        match self {
            DF::ADSB(_) => 17,
            DF::TisB(_) => 18,
        }
    }

    /// The value that stands for the downlink format on the wire.
    pub fn id(&self) -> (id: u8)
        ensures
            id == self.spec_id(),
    {
        match self {
            DF::ADSB(_) => 17,
            DF::TisB(_) => 18,
        }
    }

    /// The frame body that the 112 bits from `at` on hold: a five-bit
    /// downlink format, three bits that are the capability under format 17
    /// and the control field under format 18, and the body that they
    /// select. Every other format is unsupported.
    pub open spec fn parse(b: Seq<u8>, at: int) -> Result<DFView, DecodeError> {
        let df = bits_value(b, at, 5);
        let head = bits_value(b, at + 5, 3);
        if df == 17 {
            match ADSB::parse(b, at + 8, Capability::of_id(head)) {
                Ok(body) => Ok(DFView::ADSB(body)),
                Err(e) => Err(e),
            }
        } else if df == 18 {
            match ControlField::parse(b, at + 8, head) {
                Ok(body) => Ok(DFView::TisB(body)),
                Err(e) => Err(e),
            }
        } else {
            Err(DecodeError::UnsupportedDF)
        }
    }

    /// Reads the 112 bits of a frame.
    pub fn read(r: &mut BitReader) -> (res: Result<DF, DecodeError>)
        ensures
            BitReader::reads(
                old(r),
                final(r),
                112,
                DF::parse(old(r).stream(), old(r).cursor()),
                viewed(res),
            ),
            res is Ok ==> res->Ok_0@.bit_width() == 112,
    {
        if r.remaining() < 112 {
            return Err(DecodeError::NotEnoughBits);
        }
        let df: u8 = r.read_u8(5)?;
        let head: u8 = r.read_u8(3)?;
        if df == 17 {
            Ok(DF::ADSB(ADSB::read(r, Capability::from_id(head))?))
        } else if df == 18 {
            Ok(DF::TisB(ControlField::read(r, head)?))
        } else {
            Err(DecodeError::UnsupportedDF)
        }
    }
}

/// One decoded 112-bit frame.
#[derive(Debug, Clone, PartialEq, Eq)]
pub struct Frame {
    /// The body, by downlink format.
    pub df: DF,
}

/// A frame taken by its view.
pub struct FrameView {
    pub df: DFView,
}

impl View for Frame {
    type V = FrameView;

    open spec fn view(&self) -> FrameView {
        FrameView { df: self.df@ }
    }
}

impl FrameView {
    /// The number of bits that the frame takes on the wire.
    pub open spec fn bit_width(self) -> nat {
        self.df.bit_width()
    }
}

impl Frame {
    /// The frame that the 112 bits from `at` on hold.
    pub open spec fn parse(b: Seq<u8>, at: int) -> Result<FrameView, DecodeError> {
        match DF::parse(b, at) {
            Ok(df) => Ok(FrameView { df }),
            Err(e) => Err(e),
        }
    }

    /// What decoding the buffer `bytes` gives: a buffer of fewer than 14
    /// bytes has not enough bits, one of more has trailing bytes, and one
    /// of 14 is read as a frame from its first bit.
    pub open spec fn decoded(bytes: Seq<u8>) -> Result<FrameView, DecodeError> {
        if bytes.len() < FRAME_BYTES {
            Err(DecodeError::NotEnoughBits)
        } else if bytes.len() > FRAME_BYTES {
            Err(DecodeError::TrailingBytes)
        } else {
            Frame::parse(bytes, 0)
        }
    }

    /// Reads the 112 bits of a frame.
    pub fn read(r: &mut BitReader) -> (res: Result<Frame, DecodeError>)
        ensures
            BitReader::reads(
                old(r),
                final(r),
                112,
                Frame::parse(old(r).stream(), old(r).cursor()),
                viewed(res),
            ),
            res is Ok ==> res->Ok_0@.bit_width() == 112,
    {
        match DF::read(r) {
            Ok(df) => Ok(Frame { df }),
            Err(e) => Err(e),
        }
    }
}

/// Whatever buffer decodes gives a frame that takes 112 bits on the wire,
/// and the buffer has 14 bytes.
pub proof fn lemma_decoded_is_112_bits(bytes: Seq<u8>)
    requires
        Frame::decoded(bytes) is Ok,
    ensures
        Frame::decoded(bytes)->Ok_0.bit_width() == 112,
        bytes.len() == FRAME_BYTES,
{
}

/// Decodes one frame from a buffer that holds exactly its 14 bytes.
pub fn decode(bytes: &[u8]) -> (res: Result<Frame, DecodeError>)
    ensures
        viewed(res) == Frame::decoded(bytes@),
        res is Ok ==> res->Ok_0@.bit_width() == 112,
{
    if bytes.len() < FRAME_BYTES {
        return Err(DecodeError::NotEnoughBits);
    }
    if bytes.len() > FRAME_BYTES {
        return Err(DecodeError::TrailingBytes);
    }
    let mut r = BitReader::new(bytes);
    Frame::read(&mut r)
}

} // verus!
