//! The extended squitter body and the message layouts that its type code
//! selects.

use vstd::prelude::*;

use crate::bits::{bits_value, BitReader};
use crate::error::{viewed, DecodeError};
use crate::mode_ac::{decode_id13_field, digit_at, id13_digits, pack_digits};
use crate::altitude::{Altitude, Unit};
use crate::bits::bytes_at;
use crate::status::OperationStatus;
use crate::types::{CPRFormat, Capability, ICAO};
use crate::velocity::AirborneVelocity;
use crate::units::{altimeter_setting, qnh_tenths, rescaled, target_altitude, target_heading};

verus! {

/// Whether the ground track of a surface position is valid.
#[derive(Debug, Clone, Copy, PartialEq, Eq, Structural)]
pub enum StatusForGroundTrack {
    /// Bit clear.
    Invalid,
    /// Bit set.
    Valid,
}

impl StatusForGroundTrack {
    /// The status that a bit stands for.
    pub open spec fn of_bit(bit: nat) -> StatusForGroundTrack {
        if bit == 0 {
            StatusForGroundTrack::Invalid
        } else {
            StatusForGroundTrack::Valid
        }
    }

    /// Reads a status bit.
    pub fn read(r: &mut BitReader) -> (res: Result<StatusForGroundTrack, DecodeError>)
        ensures
            BitReader::reads(
                old(r),
                final(r),
                1,
                Ok(StatusForGroundTrack::of_bit(old(r).field(1))),
                res,
            ),
    {
        match r.read_u8(1) {
            Ok(bit) => Ok(
                if bit == 0 {
                    StatusForGroundTrack::Invalid
                } else {
                    StatusForGroundTrack::Valid
                },
            ),
            Err(e) => Err(e),
        }
    }
}

/// A surface position: movement, ground track and the raw position fields.
#[derive(Debug, Clone, Copy, PartialEq, Eq, Structural)]
pub struct SurfacePosition {
    /// Encoded ground speed.
    pub mov: u8,
    /// Whether `trk` is valid.
    pub s: StatusForGroundTrack,
    /// Encoded ground track.
    pub trk: u8,
    /// Whether the time of applicability is synchronised to UTC.
    pub t: bool,
    /// Which of the two position encodings follows.
    pub f: CPRFormat,
    /// Encoded latitude, 17 bits.
    pub lat_cpr: u32,
    /// Encoded longitude, 17 bits.
    pub lon_cpr: u32,
}

impl SurfacePosition {
    /// The surface position that the 51 bits from `at` on hold.
    pub open spec fn parse(b: Seq<u8>, at: int) -> SurfacePosition {
        SurfacePosition {
            mov: bits_value(b, at, 7) as u8,
            s: StatusForGroundTrack::of_bit(bits_value(b, at + 7, 1)),
            trk: bits_value(b, at + 8, 7) as u8,
            t: bits_value(b, at + 15, 1) == 1,
            f: CPRFormat::of_bit(bits_value(b, at + 16, 1)),
            lat_cpr: bits_value(b, at + 17, 17) as u32,
            lon_cpr: bits_value(b, at + 34, 17) as u32,
        }
    }

    /// Reads the 51 bits of a surface position.
    pub fn read(r: &mut BitReader) -> (res: Result<SurfacePosition, DecodeError>)
        ensures
            BitReader::reads(
                old(r),
                final(r),
                51,
                Ok(SurfacePosition::parse(old(r).stream(), old(r).cursor())),
                res,
            ),
    {
        if r.remaining() < 51 {
            return Err(DecodeError::NotEnoughBits);
        }
        let mov: u8 = r.read_u8(7)?;
        let s = StatusForGroundTrack::read(r)?;
        let trk: u8 = r.read_u8(7)?;
        let t = r.read_bool()?;
        let f = CPRFormat::read(r)?;
        let lat_cpr: u32 = r.read_u32(17)?;
        let lon_cpr: u32 = r.read_u32(17)?;
        Ok(SurfacePosition { mov, s, trk, t, f, lat_cpr, lon_cpr })
    }
}

/// What an aircraft status message is about.
#[derive(Debug, Clone, Copy, PartialEq, Eq, Structural)]
pub enum AircraftStatusType {
    /// Value 0.
    NoInformation,
    /// Value 1.
    EmergencyPriorityStatus,
    /// Every other value.
    Reserved,
}

impl AircraftStatusType {
    /// The kind that a three-bit value stands for.
    pub open spec fn of_id(id: nat) -> AircraftStatusType {
        if id == 0 {
            AircraftStatusType::NoInformation
        } else if id == 1 {
            AircraftStatusType::EmergencyPriorityStatus
        } else {
            AircraftStatusType::Reserved
        }
    }

    /// Reads a three-bit status kind.
    pub fn read(r: &mut BitReader) -> (res: Result<AircraftStatusType, DecodeError>)
        ensures
            BitReader::reads(
                old(r),
                final(r),
                3,
                Ok(AircraftStatusType::of_id(old(r).field(3))),
                res,
            ),
    {
        match r.read_u8(3) {
            Ok(id) => Ok(
                if id == 0 {
                    AircraftStatusType::NoInformation
                } else if id == 1 {
                    AircraftStatusType::EmergencyPriorityStatus
                } else {
                    AircraftStatusType::Reserved
                },
            ),
            Err(e) => Err(e),
        }
    }
}

/// The emergency that an aircraft reports.
#[derive(Debug, Clone, Copy, PartialEq, Eq, Structural)]
pub enum EmergencyState {
    /// Value 0.
    NoEmergency,
    /// Value 1.
    General,
    /// Value 2.
    Lifeguard,
    /// Value 4.
    MinimumFuel,
    /// Value 5.
    UnlawfulInterference,
    /// Value 6.
    Reserved1,
    /// Value 7.
    Reserved2,
}

impl EmergencyState {
    /// The state that a three-bit value stands for; the value three has
    /// no state.
    pub open spec fn of_id(id: nat) -> Result<EmergencyState, DecodeError> {
        if id == 0 {
            Ok(EmergencyState::NoEmergency)
        } else if id == 1 {
            Ok(EmergencyState::General)
        } else if id == 2 {
            Ok(EmergencyState::Lifeguard)
        } else if id == 4 {
            Ok(EmergencyState::MinimumFuel)
        } else if id == 5 {
            Ok(EmergencyState::UnlawfulInterference)
        } else if id == 6 {
            Ok(EmergencyState::Reserved1)
        } else if id == 7 {
            Ok(EmergencyState::Reserved2)
        } else {
            Err(DecodeError::DiscriminantOutOfRange)
        }
    }

    /// Reads a three-bit emergency state.
    pub fn read(r: &mut BitReader) -> (res: Result<EmergencyState, DecodeError>)
        ensures
            BitReader::reads(old(r), final(r), 3, EmergencyState::of_id(old(r).field(3)), res),
    {
        match r.read_u8(3) {
            Ok(id) => {
                if id == 0 {
                    Ok(EmergencyState::NoEmergency)
                } else if id == 1 {
                    Ok(EmergencyState::General)
                } else if id == 2 {
                    Ok(EmergencyState::Lifeguard)
                } else if id == 4 {
                    Ok(EmergencyState::MinimumFuel)
                } else if id == 5 {
                    Ok(EmergencyState::UnlawfulInterference)
                } else if id == 6 {
                    Ok(EmergencyState::Reserved1)
                } else if id == 7 {
                    Ok(EmergencyState::Reserved2)
                } else {
                    Err(DecodeError::DiscriminantOutOfRange)
                }
            },
            Err(e) => Err(e),
        }
    }
}

/// An aircraft status message: emergency state and identity code.
#[derive(Debug, Clone, Copy, PartialEq, Eq, Structural)]
pub struct AircraftStatus {
    /// What the message is about.
    pub sub_type: AircraftStatusType,
    /// The emergency reported.
    pub emergency_state: EmergencyState,
    /// The identity code: four octal digits, four bits apiece.
    pub squawk: u32,
}

impl AircraftStatus {
    /// The status message that the 19 bits from `at` on hold.
    pub open spec fn parse(b: Seq<u8>, at: int) -> Result<AircraftStatus, DecodeError> {
        match EmergencyState::of_id(bits_value(b, at + 3, 3)) {
            Ok(emergency_state) => Ok(
                AircraftStatus {
                    sub_type: AircraftStatusType::of_id(bits_value(b, at, 3)),
                    emergency_state,
                    squawk: pack_digits(id13_digits(bits_value(b, at + 6, 13) as u32)) as u32,
                },
            ),
            Err(e) => Err(e),
        }
    }

    /// Reads the 19 bits of an aircraft status message.
    pub fn read(r: &mut BitReader) -> (res: Result<AircraftStatus, DecodeError>)
        ensures
            BitReader::reads(
                old(r),
                final(r),
                19,
                AircraftStatus::parse(old(r).stream(), old(r).cursor()),
                res,
            ),
            res is Ok ==> forall|place: nat|
                place < 4 ==> #[trigger] digit_at(res->Ok_0.squawk as nat, place) <= 7,
    {
        if r.remaining() < 19 {
            return Err(DecodeError::NotEnoughBits);
        }
        let sub_type = AircraftStatusType::read(r)?;
        let emergency_state = EmergencyState::read(r)?;
        let id13: u32 = r.read_u32(13)?;
        Ok(AircraftStatus { sub_type, emergency_state, squawk: decode_id13_field(id13) })
    }
}

/// What the autopilot or flight management system is set to.
#[derive(Debug, Clone, Copy, PartialEq, Eq, Structural)]
pub struct TargetStateAndStatusInformation {
    /// Message subtype.
    pub subtype: u8,
    /// Whether the altitude comes from the flight management system.
    pub is_fms: bool,
    /// Selected altitude in feet; zero where none is given.
    pub altitude: u32,
    /// Altimeter setting in tenths of a millibar; zero where none is given.
    pub qnh: u32,
    /// Whether `heading` is valid.
    pub is_heading: bool,
    /// Selected heading in sixty-fourths of a degree.
    pub heading: u32,
    /// Navigation accuracy category for position.
    pub nacp: u8,
    /// Barometric altitude integrity.
    pub nicbaro: u8,
    /// Source integrity level.
    pub sil: u8,
    /// Whether the mode flags that follow are valid.
    pub mode_validity: bool,
    /// Autopilot engaged.
    pub autopilot: bool,
    /// Vertical navigation engaged.
    pub vnav: bool,
    /// Altitude hold engaged.
    pub alt_hold: bool,
    /// Rebroadcast flag.
    pub imf: bool,
    /// Approach mode engaged.
    pub approach: bool,
    /// Collision avoidance system operational.
    pub tcas: bool,
    /// Lateral navigation engaged.
    pub lnav: bool,
    /// Reserved bits.
    pub reserved: u8,
}

impl TargetStateAndStatusInformation {
    /// The target state that the 51 bits from `at` on hold.
    pub open spec fn parse(b: Seq<u8>, at: int) -> TargetStateAndStatusInformation {
        TargetStateAndStatusInformation {
            subtype: bits_value(b, at, 2) as u8,
            is_fms: bits_value(b, at + 2, 1) == 1,
            altitude: rescaled(bits_value(b, at + 3, 12), 32) as u32,
            qnh: qnh_tenths(bits_value(b, at + 15, 9)) as u32,
            is_heading: bits_value(b, at + 24, 1) == 1,
            heading: (45 * bits_value(b, at + 25, 9)) as u32,
            nacp: bits_value(b, at + 34, 4) as u8,
            nicbaro: bits_value(b, at + 38, 1) as u8,
            sil: bits_value(b, at + 39, 2) as u8,
            mode_validity: bits_value(b, at + 41, 1) == 1,
            autopilot: bits_value(b, at + 42, 1) == 1,
            vnav: bits_value(b, at + 43, 1) == 1,
            alt_hold: bits_value(b, at + 44, 1) == 1,
            imf: bits_value(b, at + 45, 1) == 1,
            approach: bits_value(b, at + 46, 1) == 1,
            tcas: bits_value(b, at + 47, 1) == 1,
            lnav: bits_value(b, at + 48, 1) == 1,
            reserved: bits_value(b, at + 49, 2) as u8,
        }
    }

    /// Reads the 51 bits of a target state and status message.
    pub fn read(r: &mut BitReader) -> (res: Result<TargetStateAndStatusInformation, DecodeError>)
        ensures
            BitReader::reads(
                old(r),
                final(r),
                51,
                Ok(TargetStateAndStatusInformation::parse(old(r).stream(), old(r).cursor())),
                res,
            ),
    {
        if r.remaining() < 51 {
            return Err(DecodeError::NotEnoughBits);
        }
        let subtype: u8 = r.read_u8(2)?;
        let is_fms = r.read_bool()?;
        let altitude: u32 = target_altitude(r.read_u16(12)?);
        let qnh: u32 = altimeter_setting(r.read_u16(9)?);
        let is_heading = r.read_bool()?;
        let heading: u32 = target_heading(r.read_u16(9)?);
        let nacp: u8 = r.read_u8(4)?;
        let nicbaro: u8 = r.read_u8(1)?;
        let sil: u8 = r.read_u8(2)?;
        let mode_validity = r.read_bool()?;
        let autopilot = r.read_bool()?;
        let vnav = r.read_bool()?;
        let alt_hold = r.read_bool()?;
        let imf = r.read_bool()?;
        let approach = r.read_bool()?;
        let tcas = r.read_bool()?;
        let lnav = r.read_bool()?;
        let reserved: u8 = r.read_u8(2)?;
        Ok(
            TargetStateAndStatusInformation {
                subtype,
                is_fms,
                altitude,
                qnh,
                is_heading,
                heading,
                nacp,
                nicbaro,
                sil,
                mode_validity,
                autopilot,
                vnav,
                alt_hold,
                imf,
                approach,
                tcas,
                lnav,
                reserved,
            },
        )
    }
}

/// The emitter category set that an identification message's type code
/// names.
#[derive(Debug, Clone, Copy, PartialEq, Eq, Structural)]
pub enum TypeCoding {
    /// Type code 1.
    D,
    /// Type code 2.
    C,
    /// Type code 3.
    B,
    /// Type code 4.
    A,
}

impl TypeCoding {
    /// The category set that a type code stands for.
    pub open spec fn of_id(id: nat) -> Result<TypeCoding, DecodeError> {
        if id == 1 {
            Ok(TypeCoding::D)
        } else if id == 2 {
            Ok(TypeCoding::C)
        } else if id == 3 {
            Ok(TypeCoding::B)
        } else if id == 4 {
            Ok(TypeCoding::A)
        } else {
            Err(DecodeError::DiscriminantOutOfRange)
        }
    }

    /// The category set that a type code stands for.
    pub fn from_id(id: u8) -> (res: Result<TypeCoding, DecodeError>)
        ensures
            res == TypeCoding::of_id(id as nat),
    {
        if id == 1 {
            Ok(TypeCoding::D)
        } else if id == 2 {
            Ok(TypeCoding::C)
        } else if id == 3 {
            Ok(TypeCoding::B)
        } else if id == 4 {
            Ok(TypeCoding::A)
        } else {
            Err(DecodeError::DiscriminantOutOfRange)
        }
    }

    /// Reads a five-bit type code that names a category set.
    pub fn read(r: &mut BitReader) -> (res: Result<TypeCoding, DecodeError>)
        ensures
            BitReader::reads(old(r), final(r), 5, TypeCoding::of_id(old(r).field(5)), res),
    {
        match r.read_u8(5) {
            Ok(id) => TypeCoding::from_id(id),
            Err(e) => Err(e),
        }
    }
}

/// The character that a six-bit callsign code stands for: 1 to 26 are the
/// letters, 32 is the space, 48 to 57 are the digits, and every other code
/// is shown as `#`.
pub open spec fn callsign_symbol(code: u8) -> char {
    if 1 <= code <= 26 {
        ((64 + code) as u8) as char
    } else if code == 32 {
        ' '
    } else if 48 <= code <= 57 {
        code as char
    } else {
        '#'
    }
}

/// Whether `c` is a letter, a digit or `#`: what a callsign is made of.
pub open spec fn is_callsign_symbol(c: char) -> bool {
    ('A' as u32 <= c as u32 <= 'Z' as u32) || ('0' as u32 <= c as u32 <= '9' as u32) || c == '#'
}

/// The character that a six-bit callsign code stands for.
pub fn callsign_char(code: u8) -> (c: char)
    ensures
        c == callsign_symbol(code),
        code != 32 ==> is_callsign_symbol(c),
{
    if 1 <= code && code <= 26 {
        (64 + code) as char
    } else if code == 32 {
        ' '
    } else if 48 <= code && code <= 57 {
        code as char
    } else {
        '#'
    }
}

/// The `count` six-bit codes that the bits from `at` on spell.
pub open spec fn callsign_codes(b: Seq<u8>, at: int, count: nat) -> Seq<u8> {
    Seq::new(count, |i: int| bits_value(b, at + 6 * i, 6) as u8)
}

/// The text of a callsign: the symbol of each code in turn, but for the
/// spaces, which are left out.
pub open spec fn callsign_text(codes: Seq<u8>) -> Seq<char>
    decreases codes.len(),
{
    if codes.len() == 0 {
        Seq::<char>::empty()
    } else if codes.last() == 32 {
        callsign_text(codes.drop_last())
    } else {
        callsign_text(codes.drop_last()).push(callsign_symbol(codes.last()))
    }
}

/// A callsign is no longer than its codes are many, and holds letters,
/// digits and `#` only: never a space.
pub proof fn lemma_callsign_text(codes: Seq<u8>)
    ensures
        callsign_text(codes).len() <= codes.len(),
        forall|i: int|
            0 <= i < callsign_text(codes).len() ==> is_callsign_symbol(
                #[trigger] callsign_text(codes)[i],
            ),
        forall|i: int| 0 <= i < callsign_text(codes).len() ==> #[trigger] callsign_text(codes)[i] != ' ',
    decreases codes.len(),
{
    if codes.len() > 0 {
        lemma_callsign_text(codes.drop_last());
    }
}

/// An aircraft identification message.
#[derive(Debug, Clone, PartialEq, Eq)]
pub struct Identification {
    /// The category set, named by the type code.
    pub tc: TypeCoding,
    /// The category within the set.
    pub ca: u8,
    /// The callsign, without its spaces.
    pub cn: String,
}

/// An identification message with its callsign as a sequence of characters.
pub struct IdentificationView {
    pub tc: TypeCoding,
    pub ca: u8,
    pub cn: Seq<char>,
}

impl View for Identification {
    type V = IdentificationView;

    open spec fn view(&self) -> IdentificationView {
        IdentificationView { tc: self.tc, ca: self.ca, cn: self.cn@ }
    }
}

impl Identification {
    /// The identification that the 51 bits from `at` on hold, sent under
    /// the type code that stands for `tc`.
    pub open spec fn parse(b: Seq<u8>, at: int, tc: TypeCoding) -> IdentificationView {
        IdentificationView {
            tc,
            ca: bits_value(b, at, 3) as u8,
            cn: callsign_text(callsign_codes(b, at + 3, 8)),
        }
    }

    /// Reads the eight six-bit codes of a callsign and gives its text.
    pub fn read_callsign(r: &mut BitReader) -> (res: Result<String, DecodeError>)
        ensures
            BitReader::reads(
                old(r),
                final(r),
                48,
                Ok(callsign_text(callsign_codes(old(r).stream(), old(r).cursor(), 8))),
                viewed(res),
            ),
            res is Ok ==> res->Ok_0@.len() <= 8,
            res is Ok ==> forall|i: int|
                0 <= i < res->Ok_0@.len() ==> is_callsign_symbol(#[trigger] res->Ok_0@[i]),
    {
        if r.remaining() < 48 {
            return Err(DecodeError::NotEnoughBits);
        }
        let ghost b = r.stream();
        let ghost at = r.cursor();
        let mut cn = String::new();
        let mut i: usize = 0;
        while i < 8
            invariant
                r.same_stream(old(r)),
                b == r.stream(),
                at == old(r).cursor(),
                at + 48 <= r.limit(),
                i <= 8,
                r.cursor() == at + 6 * i,
                cn@ == callsign_text(callsign_codes(b, at, i as nat)),
            decreases 8 - i,
        {
            let code: u8 = r.read_u8(6)?;
            if code != 32 {
                cn.push(callsign_char(code));
            }
            i = i + 1;
            proof {
                let codes = callsign_codes(b, at, i as nat);
                assert(codes.drop_last() =~= callsign_codes(b, at, (i - 1) as nat));
                assert(codes.last() == code);
            }
        }
        proof {
            lemma_callsign_text(callsign_codes(b, at, 8));
        }
        Ok(cn)
    }

    /// Reads the 51 bits of an identification message that follow its type
    /// code.
    pub fn read(r: &mut BitReader, tc: TypeCoding) -> (res: Result<Identification, DecodeError>)
        ensures
            BitReader::reads(
                old(r),
                final(r),
                51,
                Ok(Identification::parse(old(r).stream(), old(r).cursor(), tc)),
                viewed(res),
            ),
            res is Ok ==> res->Ok_0.cn@.len() <= 8,
            res is Ok ==> forall|i: int|
                0 <= i < res->Ok_0.cn@.len() ==> is_callsign_symbol(#[trigger] res->Ok_0.cn@[i]),
    {
        if r.remaining() < 51 {
            return Err(DecodeError::NotEnoughBits);
        }
        let ca: u8 = r.read_u8(3)?;
        let cn = Identification::read_callsign(r)?;
        Ok(Identification { tc, ca, cn })
    }
}

/// The message of an extended squitter, by the layout that its type code
/// selects.
#[derive(Debug, Clone, PartialEq, Eq)]
pub enum ME {
    /// Type codes 1 to 4.
    AircraftIdentification(Identification),
    /// Type codes 5 to 8.
    SurfacePosition(SurfacePosition),
    /// Type codes 9 to 18.
    AirbornePositionBaroAltitude(Altitude),
    /// Type code 19.
    AirborneVelocity(AirborneVelocity),
    /// Type codes 20 to 22.
    AirbornePositionGNSSAltitude(Altitude),
    /// Type codes 23 to 27, which carry nothing that is decoded.
    Reserved,
    /// Type code 28.
    AircraftStatus(AircraftStatus),
    /// Type code 29.
    TargetStateAndStatusInformation(TargetStateAndStatusInformation),
    /// Type code 31.
    AircraftOperationStatus(OperationStatus),
}

/// A message with its text, where it has any, as a sequence of characters.
pub enum MEView {
    AircraftIdentification(IdentificationView),
    SurfacePosition(SurfacePosition),
    AirbornePositionBaroAltitude(Altitude),
    AirborneVelocity(AirborneVelocity),
    AirbornePositionGNSSAltitude(Altitude),
    Reserved,
    AircraftStatus(AircraftStatus),
    TargetStateAndStatusInformation(TargetStateAndStatusInformation),
    AircraftOperationStatus(OperationStatus),
}

impl View for ME {
    type V = MEView;

    open spec fn view(&self) -> MEView {
        match self {
            ME::AircraftIdentification(m) => MEView::AircraftIdentification(m@),
            ME::SurfacePosition(m) => MEView::SurfacePosition(*m),
            ME::AirbornePositionBaroAltitude(m) => MEView::AirbornePositionBaroAltitude(*m),
            ME::AirborneVelocity(m) => MEView::AirborneVelocity(*m),
            ME::AirbornePositionGNSSAltitude(m) => MEView::AirbornePositionGNSSAltitude(*m),
            ME::Reserved => MEView::Reserved,
            ME::AircraftStatus(m) => MEView::AircraftStatus(*m),
            ME::TargetStateAndStatusInformation(m) => MEView::TargetStateAndStatusInformation(*m),
            ME::AircraftOperationStatus(m) => MEView::AircraftOperationStatus(*m),
        }
    }
}

impl MEView {
    /// The number of bits that the message takes on the wire: its type
    /// code, its fields, and the bits that its layout leaves unused.
    pub open spec fn bit_width(self) -> nat {
        match self {
            MEView::AircraftIdentification(_) => 5 + 3 + 48,
            MEView::SurfacePosition(_) => 5 + 51,
            MEView::AirbornePositionBaroAltitude(_) => 5 + 51,
            MEView::AirborneVelocity(_) => 5 + 51,
            MEView::AirbornePositionGNSSAltitude(_) => 5 + 51,
            MEView::Reserved => 5 + 51,
            MEView::AircraftStatus(_) => 5 + 19 + 32,
            MEView::TargetStateAndStatusInformation(_) => 5 + 51,
            MEView::AircraftOperationStatus(OperationStatus::Airborne(_)) => 5 + 3 + 48,
            MEView::AircraftOperationStatus(OperationStatus::Surface(_)) => 5 + 3 + 51,
        }
    }
}

/// Lifts the outcome of reading one layout into the outcome of reading a
/// message.
pub open spec fn lifted<T>(r: Result<T, DecodeError>, wrap: spec_fn(T) -> MEView) -> Result<
    MEView,
    DecodeError,
> {
    match r {
        Ok(m) => Ok(wrap(m)),
        Err(e) => Err(e),
    }
}

impl ME {
    /// The message that the 56 bits from `at` on hold: a five-bit type
    /// code, then the layout that it selects, which may not take more than
    /// the 51 bits that are left. Type codes 0 and 30 select no layout.
    pub open spec fn parse(b: Seq<u8>, at: int) -> Result<MEView, DecodeError> {
        let tc = bits_value(b, at, 5);
        if 1 <= tc <= 4 {
            lifted(
                TypeCoding::of_id(tc),
                |t: TypeCoding| MEView::AircraftIdentification(Identification::parse(b, at + 5, t)),
            )
        } else if 5 <= tc <= 8 {
            Ok(MEView::SurfacePosition(SurfacePosition::parse(b, at + 5)))
        } else if 9 <= tc <= 18 {
            Ok(
                MEView::AirbornePositionBaroAltitude(
                    Altitude::parse(b, at + 5, tc as u8, Unit::Feet),
                ),
            )
        } else if tc == 19 {
            lifted(AirborneVelocity::parse(b, at + 5), |m: AirborneVelocity| MEView::AirborneVelocity(m))
        } else if 20 <= tc <= 22 {
            Ok(
                MEView::AirbornePositionGNSSAltitude(
                    Altitude::parse(b, at + 5, tc as u8, Unit::Meter),
                ),
            )
        } else if 23 <= tc <= 27 {
            Ok(MEView::Reserved)
        } else if tc == 28 {
            lifted(AircraftStatus::parse(b, at + 5), |m: AircraftStatus| MEView::AircraftStatus(m))
        } else if tc == 29 {
            Ok(
                MEView::TargetStateAndStatusInformation(
                    TargetStateAndStatusInformation::parse(b, at + 5),
                ),
            )
        } else if tc == 31 {
            lifted(
                OperationStatus::parse(b, at + 5, at + 56),
                |m: OperationStatus| MEView::AircraftOperationStatus(m),
            )
        } else {
            Err(DecodeError::UnsupportedTypeCode)
        }
    }

    /// Reads the 56 bits of a message. Whatever the selected layout leaves
    /// unread of them is passed over.
    pub fn read(r: &mut BitReader) -> (res: Result<ME, DecodeError>)
        ensures
            BitReader::reads(
                old(r),
                final(r),
                56,
                ME::parse(old(r).stream(), old(r).cursor()),
                viewed(res),
            ),
            res is Ok ==> res->Ok_0@.bit_width() == 56,
    {
        let mut block = r.block(56)?;
        let tc: u8 = block.read_u8(5)?;
        if 1 <= tc && tc <= 4 {
            let coding = TypeCoding::from_id(tc)?;
            Ok(ME::AircraftIdentification(Identification::read(&mut block, coding)?))
        } else if 5 <= tc && tc <= 8 {
            Ok(ME::SurfacePosition(SurfacePosition::read(&mut block)?))
        } else if 9 <= tc && tc <= 18 {
            Ok(ME::AirbornePositionBaroAltitude(Altitude::read(&mut block, tc, Unit::Feet)?))
        } else if tc == 19 {
            Ok(ME::AirborneVelocity(AirborneVelocity::read(&mut block)?))
        } else if 20 <= tc && tc <= 22 {
            Ok(ME::AirbornePositionGNSSAltitude(Altitude::read(&mut block, tc, Unit::Meter)?))
        } else if 23 <= tc && tc <= 27 {
            Ok(ME::Reserved)
        } else if tc == 28 {
            Ok(ME::AircraftStatus(AircraftStatus::read(&mut block)?))
        } else if tc == 29 {
            Ok(
                ME::TargetStateAndStatusInformation(
                    TargetStateAndStatusInformation::read(&mut block)?,
                ),
            )
        } else if tc == 31 {
            Ok(ME::AircraftOperationStatus(OperationStatus::read(&mut block)?))
        } else {
            Err(DecodeError::UnsupportedTypeCode)
        }
    }
}

/// The body of an extended squitter.
#[derive(Debug, Clone, PartialEq, Eq)]
pub struct ADSB {
    /// What the transponder reports of itself.
    pub capability: Capability,
    /// The address of the aircraft.
    pub icao: ICAO,
    /// The message.
    pub me: ME,
    /// The parity and interrogator field, as it was sent.
    pub pi: u32,
}

/// An extended squitter body with its message taken by its view.
pub struct ADSBView {
    pub capability: Capability,
    pub icao: ICAO,
    pub me: MEView,
    pub pi: u32,
}

impl View for ADSB {
    type V = ADSBView;

    open spec fn view(&self) -> ADSBView {
        ADSBView { capability: self.capability, icao: self.icao, me: self.me@, pi: self.pi }
    }
}

impl ADSBView {
    /// The number of bits that the body takes on the wire.
    pub open spec fn bit_width(self) -> nat {
        (3 + 24 + self.me.bit_width() + 24) as nat
    }
}

impl ADSB {
    /// The body that follows the three bits of `capability` in the 104
    /// bits from `at` on: address, message and parity.
    pub open spec fn parse(b: Seq<u8>, at: int, capability: Capability) -> Result<
        ADSBView,
        DecodeError,
    > {
        match ME::parse(b, at + 24) {
            Ok(me) => Ok(
                ADSBView {
                    capability,
                    icao: ICAO(bits_value(b, at, 24) as u32),
                    me,
                    pi: bits_value(b, at + 80, 24) as u32,
                },
            ),
            Err(e) => Err(e),
        }
    }

    /// Reads the 104 bits of a body that follow its capability field.
    pub fn read(r: &mut BitReader, capability: Capability) -> (res: Result<ADSB, DecodeError>)
        ensures
            BitReader::reads(
                old(r),
                final(r),
                104,
                ADSB::parse(old(r).stream(), old(r).cursor(), capability),
                viewed(res),
            ),
            res is Ok ==> res->Ok_0@.bit_width() == 107,
    {
        if r.remaining() < 104 {
            return Err(DecodeError::NotEnoughBits);
        }
        let icao = ICAO::read(r)?;
        let me = ME::read(r)?;
        let pi: u32 = r.read_u32(24)?;
        Ok(ADSB { capability, icao, me, pi })
    }
}

/// The body of a message from a device that is no transponder: its
/// announced address, the message as it was sent, and the parity field.
#[allow(non_camel_case_types)]
#[derive(Debug, Clone, PartialEq, Eq)]
pub struct ADSB_ICAO {
    /// The address that the device announces.
    pub aa: ICAO,
    /// The seven bytes of the message.
    pub me: Vec<u8>,
    /// The parity and interrogator field.
    pub pi: ICAO,
}

/// Such a body with the message's bytes as a sequence.
#[allow(non_camel_case_types)]
pub struct ADSB_ICAOView {
    pub aa: ICAO,
    pub me: Seq<u8>,
    pub pi: ICAO,
}

impl View for ADSB_ICAO {
    type V = ADSB_ICAOView;

    open spec fn view(&self) -> ADSB_ICAOView {
        ADSB_ICAOView { aa: self.aa, me: self.me@, pi: self.pi }
    }
}

impl ADSB_ICAO {
    /// The body that the 104 bits from `at` on hold.
    pub open spec fn parse(b: Seq<u8>, at: int) -> ADSB_ICAOView {
        ADSB_ICAOView {
            aa: ICAO(bits_value(b, at, 24) as u32),
            me: bytes_at(b, at + 24, 7),
            pi: ICAO(bits_value(b, at + 80, 24) as u32),
        }
    }

    /// Reads the 104 bits of such a body.
    pub fn read(r: &mut BitReader) -> (res: Result<ADSB_ICAO, DecodeError>)
        ensures
            BitReader::reads(
                old(r),
                final(r),
                104,
                Ok(ADSB_ICAO::parse(old(r).stream(), old(r).cursor())),
                viewed(res),
            ),
    {
        if r.remaining() < 104 {
            return Err(DecodeError::NotEnoughBits);
        }
        let aa = ICAO::read(r)?;
        let me = r.read_bytes(7)?;
        let pi = ICAO::read(r)?;
        Ok(ADSB_ICAO { aa, me, pi })
    }
}

/// The body of a downlink format 18 frame, by its control field.
#[allow(non_camel_case_types)]
#[derive(Debug, Clone, PartialEq, Eq)]
pub enum ControlField {
    /// Control field 0: a message from a device that is no transponder.
    ADSB_ES_NT(ADSB_ICAO),
    /// Control field 1: the same, with an address from another space.
    ADSB_ES_NT_ALT(ADSB_ICAO),
    /// Control field 6: a rebroadcast, laid out as an extended squitter.
    TISB_DF17(ADSB),
}

/// Such a body taken by its view.
#[allow(non_camel_case_types)]
pub enum ControlFieldView {
    ADSB_ES_NT(ADSB_ICAOView),
    ADSB_ES_NT_ALT(ADSB_ICAOView),
    TISB_DF17(ADSBView),
}

impl View for ControlField {
    type V = ControlFieldView;

    open spec fn view(&self) -> ControlFieldView {
        match self {
            ControlField::ADSB_ES_NT(m) => ControlFieldView::ADSB_ES_NT(m@),
            ControlField::ADSB_ES_NT_ALT(m) => ControlFieldView::ADSB_ES_NT_ALT(m@),
            ControlField::TISB_DF17(m) => ControlFieldView::TISB_DF17(m@),
        }
    }
}

impl ControlFieldView {
    /// The number of bits that the body takes on the wire.
    pub open spec fn bit_width(self) -> nat {
        match self {
            ControlFieldView::ADSB_ES_NT(_) => 3 + 24 + 56 + 24,
            ControlFieldView::ADSB_ES_NT_ALT(_) => 3 + 24 + 56 + 24,
            ControlFieldView::TISB_DF17(body) => body.bit_width(),
        }
    }
}

impl ControlField {
    /// The body that follows the three bits of the control field `cf` in
    /// the 104 bits from `at` on. Control fields 2 to 5 stand for formats
    /// that are not decoded, and 7 for none. In a rebroadcast the control
    /// field takes the place of the capability.
    pub open spec fn parse(b: Seq<u8>, at: int, cf: nat) -> Result<ControlFieldView, DecodeError> {
        if cf == 0 {
            Ok(ControlFieldView::ADSB_ES_NT(ADSB_ICAO::parse(b, at)))
        } else if cf == 1 {
            Ok(ControlFieldView::ADSB_ES_NT_ALT(ADSB_ICAO::parse(b, at)))
        } else if 2 <= cf <= 5 {
            Err(DecodeError::UnsupportedControlField)
        } else if cf == 6 {
            match ADSB::parse(b, at, Capability::of_id(cf)) {
                Ok(body) => Ok(ControlFieldView::TISB_DF17(body)),
                Err(e) => Err(e),
            }
        } else {
            Err(DecodeError::DiscriminantOutOfRange)
        }
    }

    /// Reads the 104 bits of the body that control field `cf` selects.
    pub fn read(r: &mut BitReader, cf: u8) -> (res: Result<ControlField, DecodeError>)
        ensures
            BitReader::reads(
                old(r),
                final(r),
                104,
                ControlField::parse(old(r).stream(), old(r).cursor(), cf as nat),
                viewed(res),
            ),
            res is Ok ==> res->Ok_0@.bit_width() == 107,
    {
        if r.remaining() < 104 {
            return Err(DecodeError::NotEnoughBits);
        }
        if cf == 0 {
            Ok(ControlField::ADSB_ES_NT(ADSB_ICAO::read(r)?))
        } else if cf == 1 {
            Ok(ControlField::ADSB_ES_NT_ALT(ADSB_ICAO::read(r)?))
        } else if 2 <= cf && cf <= 5 {
            Err(DecodeError::UnsupportedControlField)
        } else if cf == 6 {
            Ok(ControlField::TISB_DF17(ADSB::read(r, Capability::from_id(cf))?))
        } else {
            Err(DecodeError::DiscriminantOutOfRange)
        }
    }
}

} // verus!
