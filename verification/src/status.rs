//! The aircraft operational status message.

use vstd::prelude::*;

use crate::bits::{bits_value, BitReader};
use crate::error::DecodeError;

verus! {

/// The edition of the ADS-B standard that a transponder follows.
#[derive(Debug, Clone, Copy, PartialEq, Eq, Structural)]
pub enum ADSBVersion {
    /// Value 0: ICAO Doc 9871, Appendix A.
    DOC9871AppendixA,
    /// Value 1: ICAO Doc 9871, Appendix B.
    DOC9871AppendixB,
    /// Value 2: ICAO Doc 9871, Appendix C.
    DOC9871AppendixC,
}

impl ADSBVersion {
    /// The edition that a three-bit value stands for.
    pub open spec fn of_id(id: nat) -> Result<ADSBVersion, DecodeError> {
        if id == 0 {
            Ok(ADSBVersion::DOC9871AppendixA)
        } else if id == 1 {
            Ok(ADSBVersion::DOC9871AppendixB)
        } else if id == 2 {
            Ok(ADSBVersion::DOC9871AppendixC)
        } else {
            Err(DecodeError::DiscriminantOutOfRange)
        }
    }

    /// The value that stands for the edition on the wire.
    pub open spec fn id(self) -> nat {
        match self {
            ADSBVersion::DOC9871AppendixA => 0,
            ADSBVersion::DOC9871AppendixB => 1,
            ADSBVersion::DOC9871AppendixC => 2,
        }
    }

    /// The value that stands for the edition on the wire.
    pub fn deku_id(&self) -> (id: u8)
        ensures
            id == self.id(),
    {
        match self {
            ADSBVersion::DOC9871AppendixA => 0,
            ADSBVersion::DOC9871AppendixB => 1,
            ADSBVersion::DOC9871AppendixC => 2,
        }
    }

    /// Reads a three-bit edition number.
    pub fn read(r: &mut BitReader) -> (res: Result<ADSBVersion, DecodeError>)
        ensures
            BitReader::reads(old(r), final(r), 3, ADSBVersion::of_id(old(r).field(3)), res),
    {
        match r.read_u8(3) {
            Ok(id) => {
                if id == 0 {
                    Ok(ADSBVersion::DOC9871AppendixA)
                } else if id == 1 {
                    Ok(ADSBVersion::DOC9871AppendixB)
                } else if id == 2 {
                    Ok(ADSBVersion::DOC9871AppendixC)
                } else {
                    Err(DecodeError::DiscriminantOutOfRange)
                }
            },
            Err(e) => Err(e),
        }
    }
}

/// The capability class codes of an operational status message.
#[derive(Debug, Clone, Copy, PartialEq, Eq, Structural)]
pub struct CapabilityCode {
    /// Reserved bits.
    pub reserved0: u8,
    /// Collision avoidance system operational.
    pub acas: u8,
    /// Cockpit display of traffic information.
    pub cdti: u8,
    /// Reserved bits.
    pub reserved1: u8,
    /// Air-referenced velocity reports.
    pub arv: u8,
    /// Target state reports.
    pub ts: u8,
    /// Target change reports.
    pub tc: u8,
    /// Reserved bits.
    pub reserved2: u8,
}

impl CapabilityCode {
    /// The capability codes that the 16 bits from `at` on hold.
    pub open spec fn parse(b: Seq<u8>, at: int) -> CapabilityCode {
        CapabilityCode {
            reserved0: bits_value(b, at, 2) as u8,
            acas: bits_value(b, at + 2, 1) as u8,
            cdti: bits_value(b, at + 3, 1) as u8,
            reserved1: bits_value(b, at + 4, 2) as u8,
            arv: bits_value(b, at + 6, 1) as u8,
            ts: bits_value(b, at + 7, 1) as u8,
            tc: bits_value(b, at + 8, 2) as u8,
            reserved2: bits_value(b, at + 10, 6) as u8,
        }
    }

    /// Reads the 16 bits of the capability codes.
    pub fn read(r: &mut BitReader) -> (res: Result<CapabilityCode, DecodeError>)
        ensures
            BitReader::reads(
                old(r),
                final(r),
                16,
                Ok(CapabilityCode::parse(old(r).stream(), old(r).cursor())),
                res,
            ),
    {
        if r.remaining() < 16 {
            return Err(DecodeError::NotEnoughBits);
        }
        let reserved0: u8 = r.read_u8(2)?;
        let acas: u8 = r.read_u8(1)?;
        let cdti: u8 = r.read_u8(1)?;
        let reserved1: u8 = r.read_u8(2)?;
        let arv: u8 = r.read_u8(1)?;
        let ts: u8 = r.read_u8(1)?;
        let tc: u8 = r.read_u8(2)?;
        let reserved2: u8 = r.read_u8(6)?;
        Ok(CapabilityCode { reserved0, acas, cdti, reserved1, arv, ts, tc, reserved2 })
    }
}

/// The operational status of an airborne aircraft.
#[derive(Debug, Clone, Copy, PartialEq, Eq, Structural)]
pub struct OperationStatusAirborne {
    /// Capability class codes.
    pub capability_codes: CapabilityCode,
    /// Operational mode bits without a meaning.
    pub operational_mode_unused1: u8,
    /// Single antenna flag.
    pub saf: bool,
    /// System design assurance.
    pub sda: u8,
    /// Operational mode bits without a meaning.
    pub operational_mode_unused2: u8,
    /// The edition of the standard that is followed.
    pub version_number: ADSBVersion,
    /// NIC supplement A.
    pub nic_supplement_a: u8,
    /// Navigation accuracy category for position.
    pub navigational_accuracy_category: u8,
    /// Geometric vertical accuracy.
    pub geometric_vertical_accuracy: u8,
    /// Source integrity level.
    pub source_integrity_level: u8,
    /// Barometric altitude integrity.
    pub barometric_altitude_integrity: u8,
    /// Set for magnetic north, clear for true north.
    pub horizontal_reference_direction: u8,
    /// SIL supplement.
    pub sil_supplement: u8,
    /// Reserved bit.
    pub reserved: u8,
}

impl OperationStatusAirborne {
    /// The airborne status that the 48 bits from `at` on hold.
    pub open spec fn parse(b: Seq<u8>, at: int) -> Result<OperationStatusAirborne, DecodeError> {
        match ADSBVersion::of_id(bits_value(b, at + 32, 3)) {
            Ok(version_number) => Ok(
                OperationStatusAirborne {
                    capability_codes: CapabilityCode::parse(b, at),
                    operational_mode_unused1: bits_value(b, at + 16, 5) as u8,
                    saf: bits_value(b, at + 21, 1) == 1,
                    sda: bits_value(b, at + 22, 2) as u8,
                    operational_mode_unused2: bits_value(b, at + 24, 8) as u8,
                    version_number,
                    nic_supplement_a: bits_value(b, at + 35, 1) as u8,
                    navigational_accuracy_category: bits_value(b, at + 36, 4) as u8,
                    geometric_vertical_accuracy: bits_value(b, at + 40, 2) as u8,
                    source_integrity_level: bits_value(b, at + 42, 2) as u8,
                    barometric_altitude_integrity: bits_value(b, at + 44, 1) as u8,
                    horizontal_reference_direction: bits_value(b, at + 45, 1) as u8,
                    sil_supplement: bits_value(b, at + 46, 1) as u8,
                    reserved: bits_value(b, at + 47, 1) as u8,
                },
            ),
            Err(e) => Err(e),
        }
    }

    /// Reads the 48 bits of an airborne operational status.
    pub fn read(r: &mut BitReader) -> (res: Result<OperationStatusAirborne, DecodeError>)
        ensures
            BitReader::reads(
                old(r),
                final(r),
                48,
                OperationStatusAirborne::parse(old(r).stream(), old(r).cursor()),
                res,
            ),
    {
        if r.remaining() < 48 {
            return Err(DecodeError::NotEnoughBits);
        }
        let capability_codes = CapabilityCode::read(r)?;
        let operational_mode_unused1: u8 = r.read_u8(5)?;
        let saf = r.read_bool()?;
        let sda: u8 = r.read_u8(2)?;
        let operational_mode_unused2: u8 = r.read_u8(8)?;
        let version_number = ADSBVersion::read(r)?;
        let nic_supplement_a: u8 = r.read_u8(1)?;
        let navigational_accuracy_category: u8 = r.read_u8(4)?;
        let geometric_vertical_accuracy: u8 = r.read_u8(2)?;
        let source_integrity_level: u8 = r.read_u8(2)?;
        let barometric_altitude_integrity: u8 = r.read_u8(1)?;
        let horizontal_reference_direction: u8 = r.read_u8(1)?;
        let sil_supplement: u8 = r.read_u8(1)?;
        let reserved: u8 = r.read_u8(1)?;
        Ok(
            OperationStatusAirborne {
                capability_codes,
                operational_mode_unused1,
                saf,
                sda,
                operational_mode_unused2,
                version_number,
                nic_supplement_a,
                navigational_accuracy_category,
                geometric_vertical_accuracy,
                source_integrity_level,
                barometric_altitude_integrity,
                horizontal_reference_direction,
                sil_supplement,
                reserved,
            },
        )
    }
}

/// The operational status of an aircraft on the ground.
#[derive(Debug, Clone, Copy, PartialEq, Eq, Structural)]
pub struct OperationStatusSurface {
    /// Capability class codes.
    pub capacity_codes: CapabilityCode,
    /// Length and width code of the aircraft.
    pub capacity_len_code: u8,
    /// Operational mode codes.
    pub operational_mode_codes: u16,
    /// The edition of the standard that is followed.
    pub version_number: ADSBVersion,
    /// NIC supplement A.
    pub nic_supplement_a: u8,
    /// Navigation accuracy category for position.
    pub navigational_accuracy_category: u8,
    /// Reserved bit.
    pub reserved0: u8,
    /// Source integrity level.
    pub source_integrity_level: u8,
    /// Set where the track field holds a heading.
    pub track_angle_or_heading: u8,
    /// Set for magnetic north, clear for true north.
    pub horizontal_reference_direction: u8,
    /// SIL supplement.
    pub sil_supplement: u8,
    /// Reserved bit.
    pub reserved1: u8,
}

impl OperationStatusSurface {
    /// The surface status that the 51 bits from `at` on hold.
    pub open spec fn parse(b: Seq<u8>, at: int) -> Result<OperationStatusSurface, DecodeError> {
        match ADSBVersion::of_id(bits_value(b, at + 36, 3)) {
            Ok(version_number) => Ok(
                OperationStatusSurface {
                    capacity_codes: CapabilityCode::parse(b, at),
                    capacity_len_code: bits_value(b, at + 16, 4) as u8,
                    operational_mode_codes: bits_value(b, at + 20, 16) as u16,
                    version_number,
                    nic_supplement_a: bits_value(b, at + 39, 1) as u8,
                    navigational_accuracy_category: bits_value(b, at + 40, 4) as u8,
                    reserved0: bits_value(b, at + 44, 1) as u8,
                    source_integrity_level: bits_value(b, at + 45, 2) as u8,
                    track_angle_or_heading: bits_value(b, at + 47, 1) as u8,
                    horizontal_reference_direction: bits_value(b, at + 48, 1) as u8,
                    sil_supplement: bits_value(b, at + 49, 1) as u8,
                    reserved1: bits_value(b, at + 50, 1) as u8,
                },
            ),
            Err(e) => Err(e),
        }
    }

    /// Reads the 51 bits of a surface operational status.
    pub fn read(r: &mut BitReader) -> (res: Result<OperationStatusSurface, DecodeError>)
        ensures
            BitReader::reads(
                old(r),
                final(r),
                51,
                OperationStatusSurface::parse(old(r).stream(), old(r).cursor()),
                res,
            ),
    {
        if r.remaining() < 51 {
            return Err(DecodeError::NotEnoughBits);
        }
        let capacity_codes = CapabilityCode::read(r)?;
        let capacity_len_code: u8 = r.read_u8(4)?;
        let operational_mode_codes: u16 = r.read_u16(16)?;
        let version_number = ADSBVersion::read(r)?;
        let nic_supplement_a: u8 = r.read_u8(1)?;
        let navigational_accuracy_category: u8 = r.read_u8(4)?;
        let reserved0: u8 = r.read_u8(1)?;
        let source_integrity_level: u8 = r.read_u8(2)?;
        let track_angle_or_heading: u8 = r.read_u8(1)?;
        let horizontal_reference_direction: u8 = r.read_u8(1)?;
        let sil_supplement: u8 = r.read_u8(1)?;
        let reserved1: u8 = r.read_u8(1)?;
        Ok(
            OperationStatusSurface {
                capacity_codes,
                capacity_len_code,
                operational_mode_codes,
                version_number,
                nic_supplement_a,
                navigational_accuracy_category,
                reserved0,
                source_integrity_level,
                track_angle_or_heading,
                horizontal_reference_direction,
                sil_supplement,
                reserved1,
            },
        )
    }
}

/// An operational status message, by its subtype.
#[derive(Debug, Clone, Copy, PartialEq, Eq, Structural)]
pub enum OperationStatus {
    /// Subtype 0.
    Airborne(OperationStatusAirborne),
    /// Subtype 1.
    Surface(OperationStatusSurface),
}

impl OperationStatus {
    /// The number of bits that the layout under `subtype` takes after the
    /// subtype itself.
    pub open spec fn body_bits(subtype: nat) -> int {
        if subtype == 0 {
            48
        } else {
            51
        }
    }

    /// The operational status that the bits from `at` up to `limit` hold:
    /// a three-bit subtype, then the layout that it selects.
    pub open spec fn parse(b: Seq<u8>, at: int, limit: int) -> Result<OperationStatus, DecodeError> {
        let subtype = bits_value(b, at, 3);
        if at + 3 > limit {
            Err(DecodeError::NotEnoughBits)
        } else if subtype > 1 {
            Err(DecodeError::UnsupportedOperationStatusSubtype)
        } else if at + 3 + Self::body_bits(subtype) > limit {
            Err(DecodeError::NotEnoughBits)
        } else if subtype == 0 {
            match OperationStatusAirborne::parse(b, at + 3) {
                Ok(status) => Ok(OperationStatus::Airborne(status)),
                Err(e) => Err(e),
            }
        } else {
            match OperationStatusSurface::parse(b, at + 3) {
                Ok(status) => Ok(OperationStatus::Surface(status)),
                Err(e) => Err(e),
            }
        }
    }

    /// Reads an operational status: its subtype and the layout that the
    /// subtype selects.
    pub fn read(r: &mut BitReader) -> (res: Result<OperationStatus, DecodeError>)
        ensures
            final(r).same_stream(old(r)),
            res == OperationStatus::parse(old(r).stream(), old(r).cursor(), old(r).limit()),
            res is Ok ==> final(r).cursor() == old(r).cursor() + 3 + OperationStatus::body_bits(
                bits_value(old(r).stream(), old(r).cursor(), 3),
            ),
    {
        let subtype: u8 = r.read_u8(3)?;
        if subtype == 0 {
            Ok(OperationStatus::Airborne(OperationStatusAirborne::read(r)?))
        } else if subtype == 1 {
            Ok(OperationStatus::Surface(OperationStatusSurface::read(r)?))
        } else {
            Err(DecodeError::UnsupportedOperationStatusSubtype)
        }
    }
}

/// The operational mode codes of a surface status message.
#[derive(Debug, Clone, Copy, PartialEq, Eq, Structural)]
pub struct OperationCodeSurface {
    /// Position offset applied.
    pub poe: u8,
    /// Cockpit display of traffic information.
    pub cdti: u8,
    /// Class B2 transmit power below 70 W.
    pub b2_low: u8,
    /// Length and width code.
    pub lw: u8,
    /// Reserved bits.
    pub reserved: u16,
}

impl OperationCodeSurface {
    /// The mode codes that the 12 bits from `at` on hold.
    pub open spec fn parse(b: Seq<u8>, at: int) -> OperationCodeSurface {
        OperationCodeSurface {
            poe: bits_value(b, at, 1) as u8,
            cdti: bits_value(b, at + 1, 1) as u8,
            b2_low: bits_value(b, at + 2, 1) as u8,
            lw: bits_value(b, at + 3, 3) as u8,
            reserved: bits_value(b, at + 6, 6) as u16,
        }
    }

    /// Reads the 12 bits of the surface mode codes.
    pub fn read(r: &mut BitReader) -> (res: Result<OperationCodeSurface, DecodeError>)
        ensures
            BitReader::reads(
                old(r),
                final(r),
                12,
                Ok(OperationCodeSurface::parse(old(r).stream(), old(r).cursor())),
                res,
            ),
    {
        if r.remaining() < 12 {
            return Err(DecodeError::NotEnoughBits);
        }
        let poe: u8 = r.read_u8(1)?;
        let cdti: u8 = r.read_u8(1)?;
        let b2_low: u8 = r.read_u8(1)?;
        let lw: u8 = r.read_u8(3)?;
        let reserved: u16 = r.read_u16(6)?;
        Ok(OperationCodeSurface { poe, cdti, b2_low, lw, reserved })
    }
}

} // verus!
