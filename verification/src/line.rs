//! Frames as a receiver hands them over: a line of text that holds the
//! frame's bytes as hexadecimal digits between a `*` and a `;`.

use vstd::prelude::*;
use vstd::string::*;
use vstd::utf8::is_ascii_chars;

use crate::adsb::ME;
use crate::error::DecodeError;
use crate::frame::{decode, Frame, FrameView, DF, FRAME_BYTES};
use crate::types::ICAO;

verus! {

/// Why a line of text gave no frame.
#[derive(Debug, Clone, Copy, PartialEq, Eq, Structural)]
pub enum LineError {
    /// The line is too short to hold its framing, or is not ASCII.
    Unframed,
    /// The text between the framing holds something that is no
    /// hexadecimal digit.
    InvalidHex,
    /// The bytes were read and are no frame.
    Frame(DecodeError),
}

/// The value of a hexadecimal digit, in either case.
pub open spec fn hex_digit_value(c: char) -> Option<nat> {
    let code = c as u32;
    if 48 <= code <= 57 {
        Some((code - 48) as nat)
    } else if 65 <= code <= 70 {
        Some((code - 55) as nat)
    } else if 97 <= code <= 102 {
        Some((code - 87) as nat)
    } else {
        None
    }
}

/// Whether `text` is an even number of hexadecimal digits and nothing
/// else.
pub open spec fn is_hex_text(text: Seq<char>) -> bool {
    text.len() % 2 == 0 && forall|i: int| 0 <= i < text.len() ==> hex_digit_value(#[trigger] text[i]) is Some
}

/// The bytes that the digits of `text` spell, two digits to a byte, the
/// high one first.
pub open spec fn hex_bytes(text: Seq<char>) -> Seq<u8> {
    Seq::new(
        text.len() / 2,
        |i: int|
            (16 * hex_digit_value(text[2 * i]).unwrap() + hex_digit_value(
                text[2 * i + 1],
            ).unwrap()) as u8,
    )
}

/// The error type of the `hex` crate, of which nothing is read.
#[verifier::external_type_specification]
#[verifier::external_body]
pub struct ExFromHexError(hex::FromHexError);

/// Calls `hex::decode`, which succeeds exactly on an even number of
/// hexadecimal digits and then gives the byte that each pair of digits
/// spells.
#[verifier::external_body]
fn hex_decode(text: &str) -> (r: Result<Vec<u8>, hex::FromHexError>)
    ensures
        r is Ok <==> is_hex_text(text@),
        r is Ok ==> r->Ok_0@ == hex_bytes(text@),
{
    hex::decode(text)
}

/// The outcome of decoding a line with its frame, where it gave one, taken
/// by its view.
pub open spec fn line_viewed(r: Result<Frame, LineError>) -> Result<FrameView, LineError> {
    match r {
        Ok(frame) => Ok(frame@),
        Err(e) => Err(e),
    }
}

/// What decoding the digits `text` gives. Fewer digits than a frame has
/// are not enough bits, and more are trailing bytes, whatever the text
/// holds; a text of the right length must be hexadecimal digits, and is
/// then decoded as the bytes that they spell.
pub open spec fn hex_decoded(text: Seq<char>) -> Result<FrameView, LineError> {
    if text.len() < 2 * FRAME_BYTES {
        Err(LineError::Frame(DecodeError::NotEnoughBits))
    } else if text.len() > 2 * FRAME_BYTES {
        Err(LineError::Frame(DecodeError::TrailingBytes))
    } else if !is_hex_text(text) {
        Err(LineError::InvalidHex)
    } else {
        match Frame::decoded(hex_bytes(text)) {
            Ok(frame) => Ok(frame),
            Err(e) => Err(LineError::Frame(e)),
        }
    }
}

/// Decodes a frame from its 28 hexadecimal digits.
pub fn decode_hex(text: &str) -> (res: Result<Frame, LineError>)
    ensures
        line_viewed(res) == hex_decoded(text@),
{
    let digits: usize = text.unicode_len();
    if digits < 2 * FRAME_BYTES {
        return Err(LineError::Frame(DecodeError::NotEnoughBits));
    }
    if digits > 2 * FRAME_BYTES {
        return Err(LineError::Frame(DecodeError::TrailingBytes));
    }
    match hex_decode(text) {
        Ok(bytes) => match decode(bytes.as_slice()) {
            Ok(frame) => Ok(frame),
            Err(e) => Err(LineError::Frame(e)),
        },
        Err(_) => Err(LineError::InvalidHex),
    }
}

/// What is left of a line when its first character and its last two are
/// taken off: the digits between the `*` that opens a line and the `;` and
/// line feed that close it. Nothing for a line of fewer than three
/// characters or one that is not ASCII.
pub open spec fn line_payload(line: Seq<char>) -> Option<Seq<char>> {
    if line.len() >= 3 && is_ascii_chars(line) {
        Some(line.subrange(1, line.len() - 2))
    } else {
        None
    }
}

/// What decoding a line gives: the frame that the digits between its
/// framing spell.
pub open spec fn line_decoded(line: Seq<char>) -> Result<FrameView, LineError> {
    match line_payload(line) {
        Some(text) => hex_decoded(text),
        None => Err(LineError::Unframed),
    }
}

/// Decodes the frame of one line of the form `*<28 digits>;` with its line
/// feed. The framing characters are taken off unread.
pub fn decode_line(line: &str) -> (res: Result<Frame, LineError>)
    ensures
        line_viewed(res) == line_decoded(line@),
{
    if !line.is_ascii() {
        return Err(LineError::Unframed);
    }
    let len: usize = line.unicode_len();
    if len < 3 {
        return Err(LineError::Unframed);
    }
    decode_hex(line.substring_ascii(1, len - 2))
}

impl Frame {
    /// The address under which a tracker files the frame: that of an
    /// extended squitter with a barometric airborne position. No other
    /// frame is filed.
    pub open spec fn filed_under(&self) -> Option<ICAO> {
        match self.df {
            DF::ADSB(body) => match body.me {
                ME::AirbornePositionBaroAltitude(_) => Some(body.icao),
                _ => None,
            },
            DF::TisB(_) => None,
        }
    }

    /// The address under which a tracker files the frame, where it files
    /// it.
    pub fn file_under(&self) -> (address: Option<ICAO>)
        ensures
            address == self.filed_under(),
    {
        match &self.df {
            DF::ADSB(body) => match &body.me {
                ME::AirbornePositionBaroAltitude(_) => Some(body.icao),
                _ => None,
            },
            DF::TisB(_) => None,
        }
    }
}

} // verus!
