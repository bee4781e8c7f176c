//! Small fields that several message layouts share.

use vstd::prelude::*;

use crate::bits::BitReader;
use crate::error::DecodeError;

verus! {

/// The 24-bit address of an aircraft.
#[derive(Debug, Clone, Copy, PartialEq, Eq, Hash, Structural)]
pub struct ICAO(pub u32);

impl ICAO {
    /// Reads a 24-bit address.
    pub fn read(r: &mut BitReader) -> (res: Result<ICAO, DecodeError>)
        ensures
            BitReader::reads(old(r), final(r), 24, Ok(ICAO(old(r).field(24) as u32)), res),
            old(r).field(24) < 0x100_0000,
    {
        proof {
            vstd::arithmetic::power2::lemma2_to64();
        }
        match r.read_u32(24) {
            Ok(address) => Ok(ICAO(address)),
            Err(e) => Err(e),
        }
    }
}

/// What a transponder reports of itself in the three bits that follow the
/// downlink format.
#[allow(non_camel_case_types)]
#[derive(Debug, Clone, Copy, PartialEq, Eq, Structural)]
pub enum Capability {
    /// Level 1 transponder, air or ground unknown (value 0).
    AG_UNCERTAIN,
    /// Values 1 to 3.
    Reserved,
    /// On the ground (value 4).
    AG_GROUND,
    /// Airborne (value 5).
    AG_AIRBORNE,
    /// Air or ground unknown (value 6).
    AG_UNCERTAIN2,
    /// Value 7.
    AG_UNCERTAIN3,
}

impl Capability {
    /// The capability that a three-bit value stands for.
    pub open spec fn of_id(id: nat) -> Capability {
        if id == 0 {
            Capability::AG_UNCERTAIN
        } else if id <= 3 {
            Capability::Reserved
        } else if id == 4 {
            Capability::AG_GROUND
        } else if id == 5 {
            Capability::AG_AIRBORNE
        } else if id == 6 {
            Capability::AG_UNCERTAIN2
        } else {
            Capability::AG_UNCERTAIN3
        }
    }

    /// The capability that a three-bit value stands for.
    pub fn from_id(id: u8) -> (c: Capability)
        ensures
            c == Capability::of_id(id as nat),
    {
        if id == 0 {
            Capability::AG_UNCERTAIN
        } else if id <= 3 {
            Capability::Reserved
        } else if id == 4 {
            Capability::AG_GROUND
        } else if id == 5 {
            Capability::AG_AIRBORNE
        } else if id == 6 {
            Capability::AG_UNCERTAIN2
        } else {
            Capability::AG_UNCERTAIN3
        }
    }
}

/// The sign bit of a signed-magnitude field.
#[derive(Debug, Clone, Copy, PartialEq, Eq, Structural)]
pub enum Sign {
    /// Bit clear.
    Positive,
    /// Bit set.
    Negative,
}

impl Sign {
    /// The sign that a bit stands for.
    pub open spec fn of_bit(bit: nat) -> Sign {
        if bit == 0 {
            Sign::Positive
        } else {
            Sign::Negative
        }
    }

    /// The factor that the sign stands for: one or minus one.
    pub open spec fn factor(self) -> int {
        match self {
            Sign::Positive => 1,
            Sign::Negative => -1,
        }
    }

    /// The factor that the sign stands for: one or minus one.
    pub fn value(&self) -> (v: i16)
        ensures
            v == self.factor(),
    {
        match self {
            Sign::Positive => 1,
            Sign::Negative => -1,
        }
    }

    /// The magnitude with this sign.
    pub fn apply(&self, magnitude: u32) -> (v: i32)
        requires
            magnitude <= 0x7FFF_FFFF,
        ensures
            v == magnitude * self.factor(),
    {
        match self {
            Sign::Positive => magnitude as i32,
            Sign::Negative => -(magnitude as i32),
        }
    }

    /// Reads a sign bit.
    pub fn read(r: &mut BitReader) -> (res: Result<Sign, DecodeError>)
        ensures
            BitReader::reads(old(r), final(r), 1, Ok(Sign::of_bit(old(r).field(1))), res),
    {
        match r.read_u8(1) {
            Ok(bit) => Ok(
                if bit == 0 {
                    Sign::Positive
                } else {
                    Sign::Negative
                },
            ),
            Err(e) => Err(e),
        }
    }
}

/// Which of the two interleaved position encodings a message carries.
#[derive(Debug, Clone, Copy, PartialEq, Eq, Structural)]
pub enum CPRFormat {
    /// Bit clear.
    Even,
    /// Bit set.
    Odd,
}

impl CPRFormat {
    /// The format that a bit stands for.
    pub open spec fn of_bit(bit: nat) -> CPRFormat {
        if bit == 0 {
            CPRFormat::Even
        } else {
            CPRFormat::Odd
        }
    }

    /// Reads a format bit.
    pub fn read(r: &mut BitReader) -> (res: Result<CPRFormat, DecodeError>)
        ensures
            BitReader::reads(old(r), final(r), 1, Ok(CPRFormat::of_bit(old(r).field(1))), res),
    {
        match r.read_u8(1) {
            Ok(bit) => Ok(
                if bit == 0 {
                    CPRFormat::Even
                } else {
                    CPRFormat::Odd
                },
            ),
            Err(e) => Err(e),
        }
    }
}

} // verus!
