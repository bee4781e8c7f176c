//! The airborne velocity message and what it says of speed and climb.

use vstd::prelude::*;

use crate::bits::{bits_value, BitReader};
use crate::error::DecodeError;
use crate::types::Sign;
use crate::units::{gnss_baro_difference, rescale, rescaled};

verus! {

/// Velocity over ground, as east-west and north-south components.
#[derive(Debug, Clone, Copy, PartialEq, Eq, Structural)]
pub struct GroundSpeedDecoding {
    /// Negative for a westward component.
    pub ew_sign: Sign,
    /// East-west speed, counted from one.
    pub ew_vel: u16,
    /// Negative for a southward component.
    pub ns_sign: Sign,
    /// North-south speed, counted from one.
    pub ns_vel: u16,
}

impl GroundSpeedDecoding {
    /// The ground velocity that the 22 bits from `at` on hold.
    pub open spec fn parse(b: Seq<u8>, at: int) -> GroundSpeedDecoding {
        GroundSpeedDecoding {
            ew_sign: Sign::of_bit(bits_value(b, at, 1)),
            ew_vel: bits_value(b, at + 1, 10) as u16,
            ns_sign: Sign::of_bit(bits_value(b, at + 11, 1)),
            ns_vel: bits_value(b, at + 12, 10) as u16,
        }
    }

    /// Reads the 22 bits of a ground velocity.
    pub fn read(r: &mut BitReader) -> (res: Result<GroundSpeedDecoding, DecodeError>)
        ensures
            BitReader::reads(
                old(r),
                final(r),
                22,
                Ok(GroundSpeedDecoding::parse(old(r).stream(), old(r).cursor())),
                res,
            ),
    {
        if r.remaining() < 22 {
            return Err(DecodeError::NotEnoughBits);
        }
        let ew_sign = Sign::read(r)?;
        let ew_vel: u16 = r.read_u16(10)?;
        let ns_sign = Sign::read(r)?;
        let ns_vel: u16 = r.read_u16(10)?;
        Ok(GroundSpeedDecoding { ew_sign, ew_vel, ns_sign, ns_vel })
    }
}

/// Airspeed and magnetic heading, as the raw fields.
#[derive(Debug, Clone, Copy, PartialEq, Eq, Structural)]
pub struct AirspeedDecoding {
    /// Whether `mag_heading` is valid.
    pub status_heading: u8,
    /// Magnetic heading, 10 bits.
    pub mag_heading: u16,
    /// Set for true airspeed, clear for indicated airspeed.
    pub airspeed_type: u8,
    /// Airspeed, 10 bits.
    pub airspeed: u16,
}

impl AirspeedDecoding {
    /// The airspeed block that the 22 bits from `at` on hold.
    pub open spec fn parse(b: Seq<u8>, at: int) -> AirspeedDecoding {
        AirspeedDecoding {
            status_heading: bits_value(b, at, 1) as u8,
            mag_heading: bits_value(b, at + 1, 10) as u16,
            airspeed_type: bits_value(b, at + 11, 1) as u8,
            airspeed: bits_value(b, at + 12, 10) as u16,
        }
    }

    /// Reads the 22 bits of an airspeed block.
    pub fn read(r: &mut BitReader) -> (res: Result<AirspeedDecoding, DecodeError>)
        ensures
            BitReader::reads(
                old(r),
                final(r),
                22,
                Ok(AirspeedDecoding::parse(old(r).stream(), old(r).cursor())),
                res,
            ),
    {
        if r.remaining() < 22 {
            return Err(DecodeError::NotEnoughBits);
        }
        let status_heading: u8 = r.read_u8(1)?;
        let mag_heading: u16 = r.read_u16(10)?;
        let airspeed_type: u8 = r.read_u8(1)?;
        let airspeed: u16 = r.read_u16(10)?;
        Ok(AirspeedDecoding { status_heading, mag_heading, airspeed_type, airspeed })
    }
}

/// The block of a velocity message that its subtype selects.
#[derive(Debug, Clone, Copy, PartialEq, Eq, Structural)]
pub enum AirborneVelocitySubType {
    /// Subtypes 1 and 2.
    GroundSpeedDecoding(GroundSpeedDecoding),
    /// Subtypes 3 and 4.
    AirspeedDecoding(AirspeedDecoding),
}

impl AirborneVelocitySubType {
    /// The block that the 22 bits from `at` on hold under subtype `st`.
    pub open spec fn parse(b: Seq<u8>, at: int, st: u8) -> Result<
        AirborneVelocitySubType,
        DecodeError,
    > {
        if 1 <= st <= 2 {
            Ok(AirborneVelocitySubType::GroundSpeedDecoding(GroundSpeedDecoding::parse(b, at)))
        } else if 3 <= st <= 4 {
            Ok(AirborneVelocitySubType::AirspeedDecoding(AirspeedDecoding::parse(b, at)))
        } else {
            Err(DecodeError::DiscriminantOutOfRange)
        }
    }

    /// Reads the 22 bits of the block that subtype `st` selects.
    pub fn read(r: &mut BitReader, st: u8) -> (res: Result<AirborneVelocitySubType, DecodeError>)
        ensures
            BitReader::reads(
                old(r),
                final(r),
                22,
                AirborneVelocitySubType::parse(old(r).stream(), old(r).cursor(), st),
                res,
            ),
    {
        if r.remaining() < 22 {
            return Err(DecodeError::NotEnoughBits);
        }
        if 1 <= st && st <= 2 {
            Ok(AirborneVelocitySubType::GroundSpeedDecoding(GroundSpeedDecoding::read(r)?))
        } else if 3 <= st && st <= 4 {
            Ok(AirborneVelocitySubType::AirspeedDecoding(AirspeedDecoding::read(r)?))
        } else {
            Err(DecodeError::DiscriminantOutOfRange)
        }
    }
}

/// Where a vertical rate was measured.
#[derive(Debug, Clone, Copy, PartialEq, Eq, Structural)]
pub enum VerticalRateSource {
    /// Bit clear.
    BarometricPressureAltitude,
    /// Bit set.
    GeometricAltitude,
}

impl VerticalRateSource {
    /// The source that a bit stands for.
    pub open spec fn of_bit(bit: nat) -> VerticalRateSource {
        if bit == 0 {
            VerticalRateSource::BarometricPressureAltitude
        } else {
            VerticalRateSource::GeometricAltitude
        }
    }

    /// Reads a source bit.
    pub fn read(r: &mut BitReader) -> (res: Result<VerticalRateSource, DecodeError>)
        ensures
            BitReader::reads(
                old(r),
                final(r),
                1,
                Ok(VerticalRateSource::of_bit(old(r).field(1))),
                res,
            ),
    {
        match r.read_u8(1) {
            Ok(bit) => Ok(
                if bit == 0 {
                    VerticalRateSource::BarometricPressureAltitude
                } else {
                    VerticalRateSource::GeometricAltitude
                },
            ),
            Err(e) => Err(e),
        }
    }
}

/// An airborne velocity message.
#[derive(Debug, Clone, Copy, PartialEq, Eq, Structural)]
pub struct AirborneVelocity {
    /// Subtype: 1 and 3 subsonic, 2 and 4 supersonic.
    pub st: u8,
    /// Intent change flag, IFR capability flag and velocity uncertainty.
    pub extra: u8,
    /// The block that the subtype selects.
    pub sub_type: AirborneVelocitySubType,
    /// Where the vertical rate was measured.
    pub vrate_src: VerticalRateSource,
    /// Negative for a descent.
    pub vrate_sign: Sign,
    /// Vertical rate in 64 ft/min steps, counted from one.
    pub vrate_value: u16,
    /// Reserved bits.
    pub reverved: u8,
    /// Negative where the GNSS height is below the barometric altitude.
    pub gnss_sign: Sign,
    /// Difference between GNSS height and barometric altitude in feet.
    pub gnss_baro_diff: u16,
}

/// The factor by which the speeds of a velocity message are scaled: four
/// under the supersonic ground speed subtype, else one.
pub open spec fn speed_scale(st: u8) -> nat {
    if st == 2 {
        4
    } else {
        1
    }
}

/// Whether `root` is the square root of `n`, rounded down.
pub open spec fn is_floor_sqrt(root: nat, n: nat) -> bool {
    root * root <= n < (root + 1) * (root + 1)
}

/// The square root of `n`, rounded down.
pub open spec fn floor_sqrt_of(n: nat) -> nat {
    choose|root: nat| is_floor_sqrt(root, n)
}

/// A number has one square root rounded down, and no other.
pub proof fn lemma_floor_sqrt_unique(a: nat, b: nat, n: nat)
    requires
        is_floor_sqrt(a, n),
        is_floor_sqrt(b, n),
    ensures
        a == b,
{
    if a < b {
        assert((a + 1) * (a + 1) <= b * b) by (nonlinear_arith)
            requires
                a + 1 <= b,
        ;
    } else if b < a {
        assert((b + 1) * (b + 1) <= a * a) by (nonlinear_arith)
            requires
                b + 1 <= a,
        ;
    }
}

/// The square root of `n`, rounded down.
pub fn floor_sqrt(n: u64) -> (root: u64)
    ensures
        is_floor_sqrt(root as nat, n as nat),
        root == floor_sqrt_of(n as nat),
        root < 0x1_0000_0000,
{
    let mut low: u64 = 0;
    let mut high: u64 = 0x1_0000_0000;
    assert(n < high * high) by (nonlinear_arith)
        requires
            n <= 0xFFFF_FFFF_FFFF_FFFF,
            high == 0x1_0000_0000,
    ;
    while high - low > 1
        invariant
            low < high <= 0x1_0000_0000,
            low * low <= n < high * high,
        decreases high - low,
    {
        let mid: u64 = low + (high - low) / 2;
        assert(mid * mid < 0x1_0000_0000 * 0x1_0000_0000) by (nonlinear_arith)
            requires
                mid < 0x1_0000_0000,
        ;
        if mid * mid <= n {
            low = mid;
        } else {
            high = mid;
        }
    }
    proof {
        assert(is_floor_sqrt(low as nat, n as nat));
        lemma_floor_sqrt_unique(low as nat, floor_sqrt_of(n as nat), n as nat);
    }
    low
}

impl AirborneVelocity {
    /// The velocity message that the 51 bits from `at` on hold.
    pub open spec fn parse(b: Seq<u8>, at: int) -> Result<AirborneVelocity, DecodeError> {
        let st = bits_value(b, at, 3) as u8;
        match AirborneVelocitySubType::parse(b, at + 8, st) {
            Ok(sub_type) => Ok(
                AirborneVelocity {
                    st,
                    extra: bits_value(b, at + 3, 5) as u8,
                    sub_type,
                    vrate_src: VerticalRateSource::of_bit(bits_value(b, at + 30, 1)),
                    vrate_sign: Sign::of_bit(bits_value(b, at + 31, 1)),
                    vrate_value: bits_value(b, at + 32, 9) as u16,
                    reverved: bits_value(b, at + 41, 2) as u8,
                    gnss_sign: Sign::of_bit(bits_value(b, at + 43, 1)),
                    gnss_baro_diff: rescaled(bits_value(b, at + 44, 7), 25) as u16,
                },
            ),
            Err(e) => Err(e),
        }
    }

    /// Reads the 51 bits of a velocity message that follow its type code.
    pub fn read(r: &mut BitReader) -> (res: Result<AirborneVelocity, DecodeError>)
        ensures
            BitReader::reads(
                old(r),
                final(r),
                51,
                AirborneVelocity::parse(old(r).stream(), old(r).cursor()),
                res,
            ),
    {
        if r.remaining() < 51 {
            return Err(DecodeError::NotEnoughBits);
        }
        let st: u8 = r.read_u8(3)?;
        let extra: u8 = r.read_u8(5)?;
        let sub_type = AirborneVelocitySubType::read(r, st)?;
        let vrate_src = VerticalRateSource::read(r)?;
        let vrate_sign = Sign::read(r)?;
        let vrate_value: u16 = r.read_u16(9)?;
        let reverved: u8 = r.read_u8(2)?;
        let gnss_sign = Sign::read(r)?;
        let raw_diff: u16 = r.read_u16(7)?;
        let gnss_baro_diff: u16 = gnss_baro_difference(raw_diff) as u16;
        Ok(
            AirborneVelocity {
                st,
                extra,
                sub_type,
                vrate_src,
                vrate_sign,
                vrate_value,
                reverved,
                gnss_sign,
                gnss_baro_diff,
            },
        )
    }

    /// The vertical rate in feet per minute, positive upward: 64 ft/min
    /// for each count above one; nothing where the field is zero.
    pub open spec fn climb(&self) -> Option<int> {
        if self.vrate_value == 0 {
            None
        } else {
            Some(rescaled(self.vrate_value as nat, 64) * self.vrate_sign.factor())
        }
    }

    /// The velocity over ground in knots, eastward and northward, of a
    /// ground speed message: each speed counts from one, the supersonic
    /// subtype counts in steps of four, and the sign bit gives the
    /// direction. Nothing where the message holds an airspeed or either
    /// speed is zero.
    pub open spec fn ground_velocity(&self) -> Option<(int, int)> {
        match self.sub_type {
            AirborneVelocitySubType::GroundSpeedDecoding(g) => if g.ew_vel == 0 || g.ns_vel == 0 {
                None
            } else {
                Some(
                    (
                        rescaled(g.ew_vel as nat, speed_scale(self.st)) * g.ew_sign.factor(),
                        rescaled(g.ns_vel as nat, speed_scale(self.st)) * g.ns_sign.factor(),
                    ),
                )
            },
            AirborneVelocitySubType::AirspeedDecoding(_) => None,
        }
    }

    /// The vertical rate in feet per minute, positive upward.
    pub fn vertical_rate(&self) -> (rate: Option<i32>)
        ensures
            match rate {
                Some(v) => self.climb() == Some(v as int),
                None => self.climb() is None,
            },
    {
        if self.vrate_value == 0 {
            None
        } else {
            let magnitude: u32 = rescale(self.vrate_value, 64);
            assert(magnitude <= 0xFFFF * 64) by (nonlinear_arith)
                requires
                    magnitude == (self.vrate_value - 1) * 64,
                    self.vrate_value <= 0xFFFF,
            ;
            Some(self.vrate_sign.apply(magnitude))
        }
    }

    /// The velocity over ground in knots, eastward and northward.
    pub fn velocity(&self) -> (v: Option<(i32, i32)>)
        ensures
            match v {
                Some((east, north)) => self.ground_velocity() == Some((east as int, north as int))
                    && -0x4_0000 < east < 0x4_0000 && -0x4_0000 < north < 0x4_0000,
                None => self.ground_velocity() is None,
            },
    {
        match self.sub_type {
            AirborneVelocitySubType::GroundSpeedDecoding(g) => {
                if g.ew_vel == 0 || g.ns_vel == 0 {
                    None
                } else {
                    let scale: u16 = if self.st == 2 {
                        4
                    } else {
                        1
                    };
                    let east: u32 = rescale(g.ew_vel, scale);
                    let north: u32 = rescale(g.ns_vel, scale);
                    assert(east < 0x4_0000 && north < 0x4_0000) by (nonlinear_arith)
                        requires
                            east == (g.ew_vel - 1) * scale,
                            north == (g.ns_vel - 1) * scale,
                            g.ew_vel <= 0xFFFF,
                            g.ns_vel <= 0xFFFF,
                            scale <= 4,
                    ;
                    Some((g.ew_sign.apply(east), g.ns_sign.apply(north)))
                }
            },
            AirborneVelocitySubType::AirspeedDecoding(_) => None,
        }
    }

    /// The speed over ground in whole knots: the length of the velocity
    /// over ground, rounded down.
    pub open spec fn speed(&self) -> Option<nat> {
        match self.ground_velocity() {
            Some((east, north)) => Some(floor_sqrt_of((east * east + north * north) as nat)),
            None => None,
        }
    }

    /// The speed over ground in whole knots, rounded down.
    pub fn ground_speed(&self) -> (speed: Option<u32>)
        ensures
            match speed {
                Some(s) => self.speed() == Some(s as nat),
                None => self.speed() is None,
            },
            speed is Some ==> is_floor_sqrt(
                speed->Some_0 as nat,
                (self.ground_velocity()->Some_0.0 * self.ground_velocity()->Some_0.0
                    + self.ground_velocity()->Some_0.1 * self.ground_velocity()->Some_0.1) as nat,
            ),
    {
        match self.velocity() {
            Some((east, north)) => {
                let e: u64 = if east < 0 {
                    (-east) as u64
                } else {
                    east as u64
                };
                let n: u64 = if north < 0 {
                    (-north) as u64
                } else {
                    north as u64
                };
                assert(e * e == east * east && n * n == north * north && e * e < 0x4_0000 * 0x4_0000
                    && n * n < 0x4_0000 * 0x4_0000) by (nonlinear_arith)
                    requires
                        e < 0x4_0000,
                        n < 0x4_0000,
                        e == east || e == -east,
                        n == north || n == -north,
                ;
                let root: u64 = floor_sqrt(e * e + n * n);
                assert(root < 0x10_0000) by (nonlinear_arith)
                    requires
                        root * root <= e * e + n * n,
                        e * e + n * n < 0x4_0000 * 0x4_0000 * 2,
                ;
                Some(root as u32)
            },
            None => None,
        }
    }

    /// The airspeed in knots of an airspeed message: the raw field, in
    /// steps of four under the supersonic subtype. Nothing where the
    /// message holds a ground velocity.
    pub open spec fn air_speed(&self) -> Option<nat> {
        match self.sub_type {
            AirborneVelocitySubType::AirspeedDecoding(a) => Some(
                if self.st == 4 {
                    4 * a.airspeed as nat
                } else {
                    a.airspeed as nat
                },
            ),
            AirborneVelocitySubType::GroundSpeedDecoding(_) => None,
        }
    }

    /// The airspeed in knots of an airspeed message.
    pub fn airspeed(&self) -> (knots: Option<u32>)
        ensures
            match knots {
                Some(k) => self.air_speed() == Some(k as nat),
                None => self.air_speed() is None,
            },
    {
        match self.sub_type {
            AirborneVelocitySubType::AirspeedDecoding(a) => Some(
                if self.st == 4 {
                    4 * (a.airspeed as u32)
                } else {
                    a.airspeed as u32
                },
            ),
            AirborneVelocitySubType::GroundSpeedDecoding(_) => None,
        }
    }

    /// The velocity over ground, eastward and northward in knots, and the
    /// vertical rate in feet per minute, of a ground speed message that
    /// holds all three.
    pub open spec fn calculated(&self) -> Option<(int, int, int)> {
        match (self.ground_velocity(), self.climb()) {
            (Some((east, north)), Some(rate)) => Some((east, north, rate)),
            _ => None,
        }
    }

    /// The velocity over ground, eastward and northward in knots, and the
    /// vertical rate in feet per minute. The course is the angle of the
    /// velocity east of north, and the speed its length.
    pub fn calculate(&self) -> (out: Option<(i32, i32, i32)>)
        ensures
            match out {
                Some((east, north, rate)) => self.calculated() == Some(
                    (east as int, north as int, rate as int),
                ),
                None => self.calculated() is None,
            },
    {
        match (self.velocity(), self.vertical_rate()) {
            (Some((east, north)), Some(rate)) => Some((east, north, rate)),
            _ => None,
        }
    }
}

/// The direction of an east-west velocity component.
#[derive(Debug, Clone, Copy, PartialEq, Eq, Structural)]
pub enum DirectionEW {
    /// Bit clear.
    WestToEast,
    /// Bit set.
    EastToWest,
}

impl DirectionEW {
    /// The variant that a bit stands for.
    pub open spec fn of_bit(bit: nat) -> DirectionEW {
        if bit == 0 {
            DirectionEW::WestToEast
        } else {
            DirectionEW::EastToWest
        }
    }

    /// Reads one bit.
    pub fn read(r: &mut BitReader) -> (res: Result<DirectionEW, DecodeError>)
        ensures
            BitReader::reads(old(r), final(r), 1, Ok(DirectionEW::of_bit(old(r).field(1))), res),
    {
        match r.read_u8(1) {
            Ok(bit) => Ok(
                if bit == 0 {
                    DirectionEW::WestToEast
                } else {
                    DirectionEW::EastToWest
                },
            ),
            Err(e) => Err(e),
        }
    }
}

/// The direction of a north-south velocity component.
#[derive(Debug, Clone, Copy, PartialEq, Eq, Structural)]
pub enum DirectionNS {
    /// Bit clear.
    SouthToNorth,
    /// Bit set.
    NorthToSouth,
}

impl DirectionNS {
    /// The variant that a bit stands for.
    pub open spec fn of_bit(bit: nat) -> DirectionNS {
        if bit == 0 {
            DirectionNS::SouthToNorth
        } else {
            DirectionNS::NorthToSouth
        }
    }

    /// Reads one bit.
    pub fn read(r: &mut BitReader) -> (res: Result<DirectionNS, DecodeError>)
        ensures
            BitReader::reads(old(r), final(r), 1, Ok(DirectionNS::of_bit(old(r).field(1))), res),
    {
        match r.read_u8(1) {
            Ok(bit) => Ok(
                if bit == 0 {
                    DirectionNS::SouthToNorth
                } else {
                    DirectionNS::NorthToSouth
                },
            ),
            Err(e) => Err(e),
        }
    }
}

/// The source bit of a vertical rate.
#[derive(Debug, Clone, Copy, PartialEq, Eq, Structural)]
pub enum SourceBitVerticalRate {
    /// Bit clear.
    GNSS,
    /// Bit set.
    Barometer,
}

impl SourceBitVerticalRate {
    /// The variant that a bit stands for.
    pub open spec fn of_bit(bit: nat) -> SourceBitVerticalRate {
        if bit == 0 {
            SourceBitVerticalRate::GNSS
        } else {
            SourceBitVerticalRate::Barometer
        }
    }

    /// Reads one bit.
    pub fn read(r: &mut BitReader) -> (res: Result<SourceBitVerticalRate, DecodeError>)
        ensures
            BitReader::reads(old(r), final(r), 1, Ok(SourceBitVerticalRate::of_bit(old(r).field(1))), res),
    {
        match r.read_u8(1) {
            Ok(bit) => Ok(
                if bit == 0 {
                    SourceBitVerticalRate::GNSS
                } else {
                    SourceBitVerticalRate::Barometer
                },
            ),
            Err(e) => Err(e),
        }
    }
}

/// The sign bit of a vertical rate.
#[derive(Debug, Clone, Copy, PartialEq, Eq, Structural)]
pub enum SignBitVerticalRate {
    /// Bit clear.
    Up,
    /// Bit set.
    Down,
}

impl SignBitVerticalRate {
    /// The variant that a bit stands for.
    pub open spec fn of_bit(bit: nat) -> SignBitVerticalRate {
        if bit == 0 {
            SignBitVerticalRate::Up
        } else {
            SignBitVerticalRate::Down
        }
    }

    /// Reads one bit.
    pub fn read(r: &mut BitReader) -> (res: Result<SignBitVerticalRate, DecodeError>)
        ensures
            BitReader::reads(old(r), final(r), 1, Ok(SignBitVerticalRate::of_bit(old(r).field(1))), res),
    {
        match r.read_u8(1) {
            Ok(bit) => Ok(
                if bit == 0 {
                    SignBitVerticalRate::Up
                } else {
                    SignBitVerticalRate::Down
                },
            ),
            Err(e) => Err(e),
        }
    }
}

/// The sign bit of the difference between GNSS height and barometric altitude.
#[derive(Debug, Clone, Copy, PartialEq, Eq, Structural)]
pub enum SignBitGNSSBaroAltitudesDiff {
    /// Bit clear.
    Above,
    /// Bit set.
    Below,
}

impl SignBitGNSSBaroAltitudesDiff {
    /// The variant that a bit stands for.
    pub open spec fn of_bit(bit: nat) -> SignBitGNSSBaroAltitudesDiff {
        if bit == 0 {
            SignBitGNSSBaroAltitudesDiff::Above
        } else {
            SignBitGNSSBaroAltitudesDiff::Below
        }
    }

    /// Reads one bit.
    pub fn read(r: &mut BitReader) -> (res: Result<SignBitGNSSBaroAltitudesDiff, DecodeError>)
        ensures
            BitReader::reads(old(r), final(r), 1, Ok(SignBitGNSSBaroAltitudesDiff::of_bit(old(r).field(1))), res),
    {
        match r.read_u8(1) {
            Ok(bit) => Ok(
                if bit == 0 {
                    SignBitGNSSBaroAltitudesDiff::Above
                } else {
                    SignBitGNSSBaroAltitudesDiff::Below
                },
            ),
            Err(e) => Err(e),
        }
    }
}

/// Whether the speeds of a velocity block count in single knots or in
/// steps of four.
#[derive(Debug, Clone, Copy, PartialEq, Eq, Structural)]
pub enum AirborneVelocityType {
    /// Value 1.
    Subsonic,
    /// Value 3.
    Supersonic,
}

impl AirborneVelocityType {
    /// The kind that a three-bit value stands for.
    pub open spec fn of_id(id: nat) -> Result<AirborneVelocityType, DecodeError> {
        if id == 1 {
            Ok(AirborneVelocityType::Subsonic)
        } else if id == 3 {
            Ok(AirborneVelocityType::Supersonic)
        } else {
            Err(DecodeError::DiscriminantOutOfRange)
        }
    }

    /// The number of knots in one step of a speed field.
    pub open spec fn scale(self) -> nat {
        match self {
            AirborneVelocityType::Subsonic => 1,
            AirborneVelocityType::Supersonic => 4,
        }
    }

    /// Reads a three-bit velocity kind.
    pub fn read(r: &mut BitReader) -> (res: Result<AirborneVelocityType, DecodeError>)
        ensures
            BitReader::reads(old(r), final(r), 3, AirborneVelocityType::of_id(old(r).field(3)), res),
    {
        match r.read_u8(3) {
            Ok(id) => {
                if id == 1 {
                    Ok(AirborneVelocityType::Subsonic)
                } else if id == 3 {
                    Ok(AirborneVelocityType::Supersonic)
                } else {
                    Err(DecodeError::DiscriminantOutOfRange)
                }
            },
            Err(e) => Err(e),
        }
    }
}

/// The directions and speeds of a velocity over ground, with the speeds
/// already in knots.
#[derive(Debug, Clone, Copy, PartialEq, Eq, Structural)]
pub struct AirborneVelocitySubFields {
    /// East-west direction.
    pub dew: DirectionEW,
    /// East-west speed in knots.
    pub vew: u16,
    /// North-south direction.
    pub dns: DirectionNS,
    /// North-south speed in knots.
    pub vns: u16,
}

impl AirborneVelocitySubFields {
    /// The fields that the 22 bits from `at` on hold, with speeds of kind
    /// `t`.
    pub open spec fn parse(b: Seq<u8>, at: int, t: AirborneVelocityType) -> AirborneVelocitySubFields {
        AirborneVelocitySubFields {
            dew: DirectionEW::of_bit(bits_value(b, at, 1)),
            vew: rescaled(bits_value(b, at + 1, 10), t.scale()) as u16,
            dns: DirectionNS::of_bit(bits_value(b, at + 11, 1)),
            vns: rescaled(bits_value(b, at + 12, 10), t.scale()) as u16,
        }
    }

    /// Reads a 10-bit speed that counts from one and gives it in knots:
    /// one knot a step for subsonic speeds, four for supersonic ones.
    pub fn read_v(r: &mut BitReader, t: AirborneVelocityType) -> (res: Result<u16, DecodeError>)
        ensures
            BitReader::reads(
                old(r),
                final(r),
                10,
                Ok(rescaled(old(r).field(10), t.scale()) as u16),
                res,
            ),
            rescaled(old(r).field(10), t.scale()) <= 4092,
    {
        proof {
            vstd::arithmetic::power2::lemma2_to64();
            vstd::arithmetic::power2::lemma_pow2_strictly_increases(10, 16);
            crate::bits::lemma_bits_value_bound(r.stream(), r.cursor(), 10);
        }
        match r.read_u16(10) {
            Ok(raw) => {
                let scale: u16 = match t {
                    AirborneVelocityType::Subsonic => 1,
                    AirborneVelocityType::Supersonic => 4,
                };
                Ok(rescale(raw, scale) as u16)
            },
            Err(e) => Err(e),
        }
    }

    /// Reads the 22 bits of the directions and speeds of a velocity over
    /// ground.
    pub fn read(r: &mut BitReader, t: AirborneVelocityType) -> (res: Result<
        AirborneVelocitySubFields,
        DecodeError,
    >)
        ensures
            BitReader::reads(
                old(r),
                final(r),
                22,
                Ok(AirborneVelocitySubFields::parse(old(r).stream(), old(r).cursor(), t)),
                res,
            ),
    {
        if r.remaining() < 22 {
            return Err(DecodeError::NotEnoughBits);
        }
        let dew = DirectionEW::read(r)?;
        let vew: u16 = AirborneVelocitySubFields::read_v(r, t)?;
        let dns = DirectionNS::read(r)?;
        let vns: u16 = AirborneVelocitySubFields::read_v(r, t)?;
        Ok(AirborneVelocitySubFields { dew, vew, dns, vns })
    }
}

} // verus!
