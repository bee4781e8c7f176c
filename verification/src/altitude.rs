//! The airborne position message: altitude and the raw position fields.

use vstd::prelude::*;

use crate::bits::{bits_value, BitReader};
use crate::error::DecodeError;
use crate::mode_ac::{decode_id13_field, gillham_hundreds, id13_digits, mode_a_to_mode_c, pack_digits};
use crate::types::CPRFormat;

verus! {

/// The unit in which an altitude is given.
#[derive(Debug, Clone, Copy, PartialEq, Eq, Structural)]
pub enum Unit {
    /// Metres (bit clear).
    Meter,
    /// Feet (bit set).
    Feet,
}

impl Default for Unit {
    fn default() -> (unit: Self)
        ensures
            unit == Unit::Meter,
    {
        Unit::Meter
    }
}

impl Unit {
    /// The unit that a bit stands for.
    pub open spec fn of_bit(bit: nat) -> Unit {
        if bit == 0 {
            Unit::Meter
        } else {
            Unit::Feet
        }
    }

    /// Reads a unit bit.
    pub fn read(r: &mut BitReader) -> (res: Result<Unit, DecodeError>)
        ensures
            BitReader::reads(old(r), final(r), 1, Ok(Unit::of_bit(old(r).field(1))), res),
    {
        match r.read_u8(1) {
            Ok(bit) => Ok(
                if bit == 0 {
                    Unit::Meter
                } else {
                    Unit::Feet
                },
            ),
            Err(e) => Err(e),
        }
    }
}

/// The alert state that a position message reports.
#[derive(Debug, Clone, Copy, PartialEq, Eq, Structural)]
pub enum SurveillanceStatus {
    /// Value 0.
    NoCondition,
    /// Value 1.
    PermanentAlert,
    /// Value 2.
    TemporaryAlert,
    /// Value 3.
    SPICondition,
}

impl SurveillanceStatus {
    /// The status that a two-bit value stands for.
    pub open spec fn of_id(id: nat) -> SurveillanceStatus {
        if id == 0 {
            SurveillanceStatus::NoCondition
        } else if id == 1 {
            SurveillanceStatus::PermanentAlert
        } else if id == 2 {
            SurveillanceStatus::TemporaryAlert
        } else {
            SurveillanceStatus::SPICondition
        }
    }

    /// Reads a two-bit surveillance status.
    pub fn read(r: &mut BitReader) -> (res: Result<SurveillanceStatus, DecodeError>)
        ensures
            BitReader::reads(
                old(r),
                final(r),
                2,
                Ok(SurveillanceStatus::of_id(old(r).field(2))),
                res,
            ),
    {
        match r.read_u8(2) {
            Ok(id) => Ok(
                if id == 0 {
                    SurveillanceStatus::NoCondition
                } else if id == 1 {
                    SurveillanceStatus::PermanentAlert
                } else if id == 2 {
                    SurveillanceStatus::TemporaryAlert
                } else {
                    SurveillanceStatus::SPICondition
                },
            ),
            Err(e) => Err(e),
        }
    }
}

/// Whether the Q bit of a 12-bit altitude field is set: the altitude then
/// counts 25 ft steps, and is Gillham-coded otherwise.
pub open spec fn has_q_bit(field: nat) -> bool {
    (field / 16) % 2 == 1
}

/// The eleven bits of a 12-bit altitude field that are left when the Q bit
/// is taken out.
pub open spec fn without_q_bit(field: nat) -> nat {
    ((field % 4096) / 32) * 16 + field % 16
}

/// The 13-bit Gillham field that a 12-bit altitude field stands for: the
/// same bits with a clear M bit put back after the sixth.
pub open spec fn with_m_bit(field: nat) -> nat {
    ((field % 4096) / 64) * 128 + field % 64
}

/// Whether `feet` is one of the altitudes that a field with its Q bit set
/// can report: a whole number of 25 ft steps above -1000 ft.
pub open spec fn on_25ft_grid(feet: int) -> bool {
    -1000 <= feet <= 126_675 && (feet + 1000) % 25 == 0
}

/// The barometric altitude in feet that the low twelve bits of `field`
/// stand for. With the Q bit set it is 25 ft for each count of the other
/// eleven bits, less 1000 ft; otherwise the field is a Gillham code, worth
/// 100 ft times what it decodes to, or nothing where the code is not legal.
pub open spec fn baro_feet(field: nat) -> Option<i32> {
    if has_q_bit(field) {
        Some((25 * without_q_bit(field) - 1000) as i32)
    } else {
        match gillham_hundreds(pack_digits(id13_digits(with_m_bit(field) as u32)) as u32) {
            Some(hundreds) => Some((100 * hundreds) as i32),
            None => None,
        }
    }
}

/// Every altitude field with its Q bit set stands for an altitude, and that
/// altitude is a whole number of 25 ft steps from -1000 ft up to 50 175 ft.
pub proof fn lemma_q_bit_altitude(field: nat)
    requires
        has_q_bit(field),
    ensures
        baro_feet(field) is Some,
        on_25ft_grid(baro_feet(field)->Some_0 as int),
        baro_feet(field)->Some_0 == 25 * without_q_bit(field) - 1000,
        without_q_bit(field) <= 2047,
{
}

/// Decodes the 12-bit barometric altitude field of an airborne position
/// message into feet.
pub fn baro_altitude(field: u16) -> (feet: Option<i32>)
    ensures
        feet == baro_feet(field as nat),
        has_q_bit(field as nat) ==> feet is Some && on_25ft_grid(feet->Some_0 as int)
            && feet->Some_0 <= 50_175,
        feet is Some ==> -1200 <= feet->Some_0 <= 126_700,
{
    let low: u16 = field % 4096;
    if (field / 16) % 2 == 1 {
        let count: u16 = (low / 32) * 16 + field % 16;
        Some(25 * (count as i32) - 1000)
    } else {
        let id13: u32 = ((low / 64) as u32) * 128 + (field % 64) as u32;
        match mode_a_to_mode_c(decode_id13_field(id13)) {
            Some(hundreds) => Some(100 * hundreds),
            None => None,
        }
    }
}

/// An airborne position: altitude, and the compact position fields that a
/// tracker resolves from a pair of messages.
#[derive(Debug, Clone, Copy, PartialEq, Eq, Structural)]
pub struct Altitude {
    /// The type code under which the message was sent.
    pub tc: u8,
    /// Surveillance status.
    pub ss: SurveillanceStatus,
    /// Single antenna flag, or the IMF flag in rebroadcasts.
    pub saf_or_imf: u8,
    /// The altitude in `unit`, where the field holds one.
    pub alt: Option<i32>,
    /// Feet for a barometric altitude, metres for a GNSS height.
    pub unit: Unit,
    /// Whether the time of applicability is synchronised to UTC.
    pub t: bool,
    /// Which of the two position encodings follows.
    pub odd_flag: CPRFormat,
    /// Encoded latitude, 17 bits.
    pub lat_cpr: u32,
    /// Encoded longitude, 17 bits.
    pub lon_cpr: u32,
}

impl Altitude {
    /// The altitude that a 12-bit field stands for in the given unit: the
    /// barometric code in feet, the plain number in metres.
    pub open spec fn altitude_of(field: nat, unit: Unit) -> Option<i32> {
        match unit {
            Unit::Feet => baro_feet(field),
            Unit::Meter => Some(field as i32),
        }
    }

    /// The position message that the 51 bits from `at` on hold, sent under
    /// type code `tc` with its altitude in `unit`.
    pub open spec fn parse(b: Seq<u8>, at: int, tc: u8, unit: Unit) -> Altitude {
        Altitude {
            tc,
            ss: SurveillanceStatus::of_id(bits_value(b, at, 2)),
            saf_or_imf: bits_value(b, at + 2, 1) as u8,
            alt: Self::altitude_of(bits_value(b, at + 3, 12), unit),
            unit,
            t: bits_value(b, at + 15, 1) == 1,
            odd_flag: CPRFormat::of_bit(bits_value(b, at + 16, 1)),
            lat_cpr: bits_value(b, at + 17, 17) as u32,
            lon_cpr: bits_value(b, at + 34, 17) as u32,
        }
    }

    /// Reads the 51 bits of a position message that follow its type code.
    pub fn read(r: &mut BitReader, tc: u8, unit: Unit) -> (res: Result<Altitude, DecodeError>)
        ensures
            BitReader::reads(
                old(r),
                final(r),
                51,
                Ok(Altitude::parse(old(r).stream(), old(r).cursor(), tc, unit)),
                res,
            ),
    {
        if r.remaining() < 51 {
            return Err(DecodeError::NotEnoughBits);
        }
        let ss = SurveillanceStatus::read(r)?;
        let saf_or_imf: u8 = r.read_u8(1)?;
        let field: u16 = r.read_u16(12)?;
        let t = r.read_bool()?;
        let odd_flag = CPRFormat::read(r)?;
        let lat_cpr: u32 = r.read_u32(17)?;
        let lon_cpr: u32 = r.read_u32(17)?;
        let alt = match unit {
            Unit::Feet => baro_altitude(field),
            Unit::Meter => Some(field as i32),
        };
        Ok(Altitude { tc, ss, saf_or_imf, alt, unit, t, odd_flag, lat_cpr, lon_cpr })
    }
}

} // verus!
