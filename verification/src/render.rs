//! The text of a decoded frame, line by line.
//!
//! Each `*_onto` function gives the text that results when a rendering is
//! written after the text `acc`; the renderings of whole values start from
//! the empty text.

use vstd::prelude::*;
use vstd::string::*;

use crate::adsb::{AircraftStatus, Identification, TargetStateAndStatusInformation, TypeCoding, ADSB, ME};
use crate::adsb::ControlField;
use crate::altitude::{Altitude, Unit};
use crate::frame::{Frame, DF};
use crate::status::{ADSBVersion, CapabilityCode, OperationStatus, OperationStatusAirborne};
use crate::text::{
    decimal, hexadecimal, push_decimal, push_hex, push_signed, push_sixty_fourths, push_tenths,
    signed_decimal, sixty_fourths_text, tenths_text,
};
use crate::types::{CPRFormat, Capability, Sign, ICAO};
use crate::velocity::{AirborneVelocity, AirborneVelocitySubType, VerticalRateSource};

verus! {

impl Capability {
    /// The name under which the capability is shown.
    pub open spec fn text(self) -> Seq<char> {
        match self {
            Capability::AG_UNCERTAIN => "uncertain1"@,
            Capability::Reserved => "reserved"@,
            Capability::AG_GROUND => "ground"@,
            Capability::AG_AIRBORNE => "airborne"@,
            Capability::AG_UNCERTAIN2 => "uncertain2"@,
            Capability::AG_UNCERTAIN3 => "airborne?"@,
        }
    }

    /// The name under which the capability is shown.
    pub fn label(&self) -> (s: &'static str)
        ensures
            s@ == self.text(),
    {
        match self {
            Capability::AG_UNCERTAIN => "uncertain1",
            Capability::Reserved => "reserved",
            Capability::AG_GROUND => "ground",
            Capability::AG_AIRBORNE => "airborne",
            Capability::AG_UNCERTAIN2 => "uncertain2",
            Capability::AG_UNCERTAIN3 => "airborne?",
        }
    }
}

impl Sign {
    /// The sign as it is written before a magnitude: a minus or nothing.
    pub open spec fn text(self) -> Seq<char> {
        match self {
            Sign::Positive => ""@,
            Sign::Negative => "-"@,
        }
    }

    /// The sign as it is written before a magnitude.
    pub fn label(&self) -> (s: &'static str)
        ensures
            s@ == self.text(),
    {
        match self {
            Sign::Positive => "",
            Sign::Negative => "-",
        }
    }
}

impl CPRFormat {
    /// The name under which the format is shown.
    pub open spec fn text(self) -> Seq<char> {
        match self {
            CPRFormat::Even => "even"@,
            CPRFormat::Odd => "odd"@,
        }
    }

    /// The name under which the format is shown.
    pub fn label(&self) -> (s: &'static str)
        ensures
            s@ == self.text(),
    {
        match self {
            CPRFormat::Even => "even",
            CPRFormat::Odd => "odd",
        }
    }
}

impl Unit {
    /// The unit and the kind of altitude that is given in it.
    pub open spec fn text(self) -> Seq<char> {
        match self {
            Unit::Feet => "ft barometric"@,
            Unit::Meter => "m GNSS"@,
        }
    }

    /// The unit and the kind of altitude that is given in it.
    pub fn label(&self) -> (s: &'static str)
        ensures
            s@ == self.text(),
    {
        match self {
            Unit::Feet => "ft barometric",
            Unit::Meter => "m GNSS",
        }
    }
}

impl TypeCoding {
    /// The letter of the category set.
    pub open spec fn text(self) -> Seq<char> {
        match self {
            TypeCoding::D => "D"@,
            TypeCoding::C => "C"@,
            TypeCoding::B => "B"@,
            TypeCoding::A => "A"@,
        }
    }

    /// The letter of the category set.
    pub fn label(&self) -> (s: &'static str)
        ensures
            s@ == self.text(),
    {
        match self {
            TypeCoding::D => "D",
            TypeCoding::C => "C",
            TypeCoding::B => "B",
            TypeCoding::A => "A",
        }
    }

    /// The letter of the category set, as a string.
    pub fn to_string(&self) -> (s: String)
        ensures
            s@ == self.text(),
    {
        String::from_str(self.label())
    }
}

impl VerticalRateSource {
    /// The name under which the source is shown.
    pub open spec fn text(self) -> Seq<char> {
        match self {
            VerticalRateSource::BarometricPressureAltitude => "barometric"@,
            VerticalRateSource::GeometricAltitude => "GNSS"@,
        }
    }

    /// The name under which the source is shown.
    pub fn label(&self) -> (s: &'static str)
        ensures
            s@ == self.text(),
    {
        match self {
            VerticalRateSource::BarometricPressureAltitude => "barometric",
            VerticalRateSource::GeometricAltitude => "GNSS",
        }
    }

    /// The name under which the source is shown, as a string.
    pub fn to_string(&self) -> (s: String)
        ensures
            s@ == self.text(),
    {
        String::from_str(self.label())
    }
}

impl ADSBVersion {
    /// The edition as it is shown: its number on the wire.
    pub open spec fn text(self) -> Seq<char> {
        decimal(self.id())
    }

    /// The edition as it is shown: its number on the wire.
    pub fn to_string(&self) -> (s: String)
        ensures
            s@ == self.text(),
    {
        let mut s = String::new();
        push_decimal(&mut s, self.deku_id() as u64);
        assert(s@ =~= self.text());
        s
    }
}

impl ICAO {
    /// The address as six hexadecimal digits in upper case.
    pub open spec fn text(self) -> Seq<char> {
        hexadecimal(self.0 as nat, 6)
    }

    /// The address as six hexadecimal digits in upper case.
    pub fn to_string(&self) -> (s: String)
        ensures
            s@ == self.text(),
    {
        let mut s = String::new();
        push_hex(&mut s, self.0 as u64, 6);
        assert(s@ =~= self.text());
        s
    }
}

impl CapabilityCode {
    /// The text `acc` followed by the names of the capability classes
    /// that are set, each after a space.
    pub open spec fn text_onto(self, acc: Seq<char>) -> Seq<char> {
        let acc = if self.acas == 1 {
            acc + " ACAS"@
        } else {
            acc
        };
        let acc = if self.cdti == 1 {
            acc + " CDTI"@
        } else {
            acc
        };
        let acc = if self.arv == 1 {
            acc + " ARV"@
        } else {
            acc
        };
        let acc = if self.ts == 1 {
            acc + " TS"@
        } else {
            acc
        };
        if self.tc == 1 {
            acc + " TC"@
        } else {
            acc
        }
    }

    /// The names of the capability classes that are set, each after a
    /// space.
    pub open spec fn text(self) -> Seq<char> {
        self.text_onto(Seq::empty())
    }

    /// Appends the names of the capability classes that are set.
    pub fn write(&self, f: &mut String)
        ensures
            final(f)@ == self.text_onto(old(f)@),
    {
        if self.acas == 1 {
            f.append(" ACAS");
        }
        if self.cdti == 1 {
            f.append(" CDTI");
        }
        if self.arv == 1 {
            f.append(" ARV");
        }
        if self.ts == 1 {
            f.append(" TS");
        }
        if self.tc == 1 {
            f.append(" TC");
        }
    }

    /// The names of the capability classes that are set, each after a
    /// space.
    pub fn to_string(&self) -> (s: String)
        ensures
            s@ == self.text(),
    {
        let mut s = String::new();
        self.write(&mut s);
        s
    }
}

impl OperationStatusAirborne {
    /// The text `acc` followed by the lines of an airborne operational
    /// status.
    pub open spec fn text_onto(self, acc: Seq<char>) -> Seq<char> {
        let acc = acc + "   Version:            "@ + self.version_number.text() + "\n"@
            + "   Capability classes:"@;
        let acc = self.capability_codes.text_onto(acc) + "\n"@ + "   Operational modes:  "@;
        let acc = if self.saf {
            acc + "SAF "@
        } else {
            acc
        };
        let acc = if self.sda != 0 {
            acc + "SDA="@ + decimal(self.sda as nat)
        } else {
            acc
        };
        let acc = acc + "\n"@ + "   NACp:               "@ + decimal(
            self.navigational_accuracy_category as nat,
        ) + "\n"@ + "   GVA:                "@ + decimal(self.geometric_vertical_accuracy as nat)
            + "\n"@ + "   SIL:                "@ + decimal(self.source_integrity_level as nat)
            + " (per hour)\n"@ + "   NICbaro:            "@ + decimal(
            self.barometric_altitude_integrity as nat,
        ) + "\n"@;
        if self.horizontal_reference_direction == 1 {
            acc + "   Heading reference:  magnetic north\n"@
        } else {
            acc + "   Heading reference:  true north\n"@
        }
    }

    /// The lines of an airborne operational status.
    pub open spec fn text(self) -> Seq<char> {
        self.text_onto(Seq::empty())
    }

    /// Appends the lines of an airborne operational status.
    pub fn write(&self, f: &mut String)
        ensures
            final(f)@ == self.text_onto(old(f)@),
    {
        f.append("   Version:            ");
        push_decimal(f, self.version_number.deku_id() as u64);
        f.append("\n");
        f.append("   Capability classes:");
        self.capability_codes.write(f);
        f.append("\n");
        f.append("   Operational modes:  ");
        if self.saf {
            f.append("SAF ");
        }
        if self.sda != 0 {
            f.append("SDA=");
            push_decimal(f, self.sda as u64);
        }
        f.append("\n");
        f.append("   NACp:               ");
        push_decimal(f, self.navigational_accuracy_category as u64);
        f.append("\n");
        f.append("   GVA:                ");
        push_decimal(f, self.geometric_vertical_accuracy as u64);
        f.append("\n");
        f.append("   SIL:                ");
        push_decimal(f, self.source_integrity_level as u64);
        f.append(" (per hour)\n");
        f.append("   NICbaro:            ");
        push_decimal(f, self.barometric_altitude_integrity as u64);
        f.append("\n");
        if self.horizontal_reference_direction == 1 {
            f.append("   Heading reference:  magnetic north\n");
        } else {
            f.append("   Heading reference:  true north\n");
        }
    }

    /// The lines of an airborne operational status.
    pub fn to_string(&self) -> (s: String)
        ensures
            s@ == self.text(),
    {
        let mut s = String::new();
        self.write(&mut s);
        s
    }
}

impl Altitude {
    /// The altitude as it is shown: the number, or `None` where the field
    /// holds none.
    pub open spec fn altitude_text(self) -> Seq<char> {
        match self.alt {
            Some(value) => signed_decimal(value as int),
            None => "None"@,
        }
    }

    /// The text `acc` followed by the lines of an airborne position.
    pub open spec fn text_onto(self, acc: Seq<char>) -> Seq<char> {
        acc + "  Altitude:      "@ + self.altitude_text() + " "@ + self.unit.text() + "\n"@
            + "  CPR type:      Airborne\n"@ + "  CPR odd flag:  "@ + self.odd_flag.text() + "\n"@
            + "  CPR latitude:  ("@ + decimal(self.lat_cpr as nat) + ")\n"@ + "  CPR longitude: ("@
            + decimal(self.lon_cpr as nat) + ")\n"@
    }

    /// The lines of an airborne position.
    pub open spec fn text(self) -> Seq<char> {
        self.text_onto(Seq::empty())
    }

    /// Appends the lines of an airborne position.
    pub fn write(&self, f: &mut String)
        ensures
            final(f)@ == self.text_onto(old(f)@),
    {
        f.append("  Altitude:      ");
        match self.alt {
            Some(value) => {
                push_signed(f, value as i64);
            },
            None => {
                f.append("None");
            },
        }
        f.append(" ");
        f.append(self.unit.label());
        f.append("\n");
        f.append("  CPR type:      Airborne\n");
        f.append("  CPR odd flag:  ");
        f.append(self.odd_flag.label());
        f.append("\n");
        f.append("  CPR latitude:  (");
        push_decimal(f, self.lat_cpr as u64);
        f.append(")\n");
        f.append("  CPR longitude: (");
        push_decimal(f, self.lon_cpr as u64);
        f.append(")\n");
    }

    /// The lines of an airborne position.
    pub fn to_string(&self) -> (s: String)
        ensures
            s@ == self.text(),
    {
        let mut s = String::new();
        self.write(&mut s);
        s
    }
}

/// How the address of a frame of downlink format `df` is qualified.
pub open spec fn address_type(df: u8) -> Seq<char> {
    if df == 17 {
        "(Mode S / ADS-B)"@
    } else {
        "(ADS-R)"@
    }
}

impl AirborneVelocity {
    /// The text `acc` followed by the lines on heading, speed and vertical
    /// rate of a ground speed message, with `heading` for its heading in
    /// whole degrees; a single line that calls the packet invalid where
    /// the message does not hold all of velocity and vertical rate.
    pub open spec fn motion_onto(self, acc: Seq<char>, heading: u16) -> Seq<char> {
        match (self.calculated(), self.speed()) {
            (Some((_, _, rate)), Some(speed)) => acc + "  Heading:       "@ + decimal(
                heading as nat,
            ) + "\n"@ + "  Speed:         "@ + decimal(speed) + " kt groundspeed\n"@
                + "  Vertical rate: "@ + signed_decimal(rate) + " ft/min "@ + self.vrate_src.text()
                + "\n"@,
            _ => acc + "  Invalid packet\n"@,
        }
    }

    /// Appends the lines on heading, speed and vertical rate.
    pub fn write_motion(&self, f: &mut String, heading: u16)
        ensures
            final(f)@ == self.motion_onto(old(f)@, heading),
    {
        match (self.calculate(), self.ground_speed()) {
            (Some((_, _, rate)), Some(speed)) => {
                f.append("  Heading:       ");
                push_decimal(f, heading as u64);
                f.append("\n");
                f.append("  Speed:         ");
                push_decimal(f, speed as u64);
                f.append(" kt groundspeed\n");
                f.append("  Vertical rate: ");
                push_signed(f, rate as i64);
                f.append(" ft/min ");
                f.append(self.vrate_src.label());
                f.append("\n");
            },
            _ => {
                f.append("  Invalid packet\n");
            },
        }
    }
}

impl TargetStateAndStatusInformation {
    /// The text `acc` followed by the lines of a target state.
    pub open spec fn text_onto(self, acc: Seq<char>) -> Seq<char> {
        let acc = acc + "  Target State and Status:\n"@ + "    Target altitude:   MCP, "@ + decimal(
            self.altitude as nat,
        ) + " ft\n"@ + "    Altimeter setting: "@ + tenths_text(self.qnh as nat) + " millibars\n"@;
        let acc = if self.is_heading {
            acc + "    Target heading:    "@ + sixty_fourths_text(self.heading as nat) + "\n"@
        } else {
            acc
        };
        let acc = if self.tcas {
            let acc = acc + "    ACAS:              operational"@;
            let acc = if self.autopilot {
                acc + " autopilot "@
            } else {
                acc
            };
            let acc = if self.vnav {
                acc + " VNAC "@
            } else {
                acc
            };
            let acc = if self.alt_hold {
                acc + "altitude-hold "@
            } else {
                acc
            };
            let acc = if self.approach {
                acc + "approach"@
            } else {
                acc
            };
            acc + "\n"@
        } else {
            acc + "    ACAS:              NOT operational\n"@
        };
        acc + "    NACp:              "@ + decimal(self.nacp as nat) + "\n"@
            + "    NICbaro:           "@ + decimal(self.nicbaro as nat) + "\n"@
            + "    SIL:               "@ + decimal(self.sil as nat) + " (per sample)\n"@
    }

    /// Appends the lines of a target state.
    pub fn write(&self, f: &mut String)
        ensures
            final(f)@ == self.text_onto(old(f)@),
    {
        f.append("  Target State and Status:\n");
        f.append("    Target altitude:   MCP, ");
        push_decimal(f, self.altitude as u64);
        f.append(" ft\n");
        f.append("    Altimeter setting: ");
        push_tenths(f, self.qnh);
        f.append(" millibars\n");
        if self.is_heading {
            f.append("    Target heading:    ");
            push_sixty_fourths(f, self.heading);
            f.append("\n");
        }
        if self.tcas {
            f.append("    ACAS:              operational");
            if self.autopilot {
                f.append(" autopilot ");
            }
            if self.vnav {
                f.append(" VNAC ");
            }
            if self.alt_hold {
                f.append("altitude-hold ");
            }
            if self.approach {
                f.append("approach");
            }
            f.append("\n");
        } else {
            f.append("    ACAS:              NOT operational\n");
        }
        f.append("    NACp:              ");
        push_decimal(f, self.nacp as u64);
        f.append("\n");
        f.append("    NICbaro:           ");
        push_decimal(f, self.nicbaro as u64);
        f.append("\n");
        f.append("    SIL:               ");
        push_decimal(f, self.sil as u64);
        f.append(" (per sample)\n");
    }
}

impl ADSB {
    /// The text `acc` followed by a title, the address line and, where
    /// `air_ground` says so, the line on air or ground, each line after
    /// `lead`.
    pub open spec fn head_onto(
        self,
        acc: Seq<char>,
        title: Seq<char>,
        lead: Seq<char>,
        df: u8,
        air_ground: bool,
    ) -> Seq<char> {
        let acc = acc + title + lead + "ICAO Address:  "@ + self.icao.text() + " "@ + address_type(
            df,
        ) + "\n"@;
        if air_ground {
            acc + lead + "Air/Ground:    "@ + self.capability.text() + "\n"@
        } else {
            acc
        }
    }

    fn write_head(&self, f: &mut String, title: &str, lead: &str, df: u8, air_ground: bool)
        requires
            df == 17 || df == 18,
        ensures
            final(f)@ == self.head_onto(old(f)@, title@, lead@, df, air_ground),
    {
        f.append(title);
        f.append(lead);
        f.append("ICAO Address:  ");
        push_hex(f, self.icao.0 as u64, 6);
        f.append(" ");
        if df == 17 {
            f.append("(Mode S / ADS-B)");
        } else {
            f.append("(ADS-R)");
        }
        f.append("\n");
        if air_ground {
            f.append(lead);
            f.append("Air/Ground:    ");
            f.append(self.capability.label());
            f.append("\n");
        }
    }

    /// The text of the body of a frame of downlink format `df`, in which a
    /// ground speed message shows `heading` as its heading in whole
    /// degrees. Surface positions, reserved messages and airspeed messages
    /// have no text, and a surface operational status has its heading only.
    pub open spec fn text(self, df: u8, heading: u16) -> Seq<char> {
        let acc = Seq::<char>::empty();
        match self.me {
            ME::AircraftIdentification(id) => self.head_onto(
                acc,
                " Extended Squitter Aircraft identification and category (4)\n"@,
                "  "@,
                df,
                true,
            ) + "  Ident:         "@ + id.cn@ + "\n"@ + "  Category:      "@ + id.tc.text() + decimal(
                id.ca as nat,
            ) + "\n"@,
            ME::SurfacePosition(_) => acc,
            ME::AirbornePositionBaroAltitude(altitude) => altitude.text_onto(
                self.head_onto(
                    acc,
                    " Extended Squitter Airborne position (barometric altitude) (11)\n"@,
                    "  "@,
                    df,
                    true,
                ),
            ),
            ME::AirborneVelocity(velocity) => match velocity.sub_type {
                AirborneVelocitySubType::GroundSpeedDecoding(_) => velocity.motion_onto(
                    self.head_onto(
                        acc,
                        " Extended Squitter Airborne velocity over ground, subsonic (19/1)\n"@,
                        "  "@,
                        df,
                        true,
                    ) + "  GNSS delta:    "@ + velocity.gnss_sign.text() + decimal(
                        velocity.gnss_baro_diff as nat,
                    ) + " ft\n"@,
                    heading,
                ),
                AirborneVelocitySubType::AirspeedDecoding(_) => acc,
            },
            ME::AirbornePositionGNSSAltitude(altitude) => altitude.text_onto(
                self.head_onto(
                    acc,
                    " Extended Squitter (Non-Transponder) Airborne position (GNSS altitude) (20)\n"@,
                    "  "@,
                    df,
                    false,
                ),
            ),
            ME::Reserved => acc,
            ME::AircraftStatus(status) => self.head_onto(
                acc,
                " Extended Squitter Emergency/priority status (28/1)\n"@,
                "  "@,
                df,
                true,
            ) + "  Squawk:        "@ + decimal(status.squawk as nat) + "\n"@,
            ME::TargetStateAndStatusInformation(target) => target.text_onto(
                self.head_onto(
                    acc,
                    " Extended Squitter Target state and status (V2) (29/1)\n"@,
                    "  "@,
                    df,
                    true,
                ),
            ),
            ME::AircraftOperationStatus(OperationStatus::Airborne(status)) => status.text_onto(
                self.head_onto(
                    acc,
                    " Extended Quitter Aircraft operational status (airborne) (31/0)\n"@,
                    " "@,
                    df,
                    true,
                ) + " Aircraft Operational Status:\n"@,
            ),
            ME::AircraftOperationStatus(OperationStatus::Surface(_)) => self.head_onto(
                acc,
                " Extended Quitter Aircraft operational status (surface) (31/0)\n"@,
                " "@,
                df,
                true,
            ) + " Aircraft Operational Status:\n"@,
        }
    }

    /// Renders the body of a frame of downlink format `df`. The heading of
    /// a ground speed message is `heading`, in whole degrees: the caller
    /// has it from the velocity that [`AirborneVelocity::calculate`] gives.
    pub fn to_string(&self, df: u8, heading: u16) -> (out: String)
        requires
            df == 17 || df == 18,
        ensures
            out@ == self.text(df, heading),
    {
        let mut f = String::new();
        match &self.me {
            ME::AircraftIdentification(id) => {
                self.write_head(
                    &mut f,
                    " Extended Squitter Aircraft identification and category (4)\n",
                    "  ",
                    df,
                    true,
                );
                f.append("  Ident:         ");
                f.append(id.cn.as_str());
                f.append("\n");
                f.append("  Category:      ");
                f.append(id.tc.label());
                push_decimal(&mut f, id.ca as u64);
                f.append("\n");
            },
            ME::SurfacePosition(_) => {},
            ME::AirbornePositionBaroAltitude(altitude) => {
                self.write_head(
                    &mut f,
                    " Extended Squitter Airborne position (barometric altitude) (11)\n",
                    "  ",
                    df,
                    true,
                );
                altitude.write(&mut f);
            },
            ME::AirborneVelocity(velocity) => {
                match velocity.sub_type {
                    AirborneVelocitySubType::GroundSpeedDecoding(_) => {
                        self.write_head(
                            &mut f,
                            " Extended Squitter Airborne velocity over ground, subsonic (19/1)\n",
                            "  ",
                            df,
                            true,
                        );
                        f.append("  GNSS delta:    ");
                        f.append(velocity.gnss_sign.label());
                        push_decimal(&mut f, velocity.gnss_baro_diff as u64);
                        f.append(" ft\n");
                        velocity.write_motion(&mut f, heading);
                    },
                    AirborneVelocitySubType::AirspeedDecoding(_) => {},
                }
            },
            ME::AirbornePositionGNSSAltitude(altitude) => {
                self.write_head(
                    &mut f,
                    " Extended Squitter (Non-Transponder) Airborne position (GNSS altitude) (20)\n",
                    "  ",
                    df,
                    false,
                );
                altitude.write(&mut f);
            },
            ME::Reserved => {},
            ME::AircraftStatus(status) => {
                self.write_head(
                    &mut f,
                    " Extended Squitter Emergency/priority status (28/1)\n",
                    "  ",
                    df,
                    true,
                );
                f.append("  Squawk:        ");
                push_decimal(&mut f, status.squawk as u64);
                f.append("\n");
            },
            ME::TargetStateAndStatusInformation(target) => {
                self.write_head(
                    &mut f,
                    " Extended Squitter Target state and status (V2) (29/1)\n",
                    "  ",
                    df,
                    true,
                );
                target.write(&mut f);
            },
            ME::AircraftOperationStatus(OperationStatus::Airborne(status)) => {
                self.write_head(
                    &mut f,
                    " Extended Quitter Aircraft operational status (airborne) (31/0)\n",
                    " ",
                    df,
                    true,
                );
                f.append(" Aircraft Operational Status:\n");
                status.write(&mut f);
            },
            ME::AircraftOperationStatus(OperationStatus::Surface(_)) => {
                self.write_head(
                    &mut f,
                    " Extended Quitter Aircraft operational status (surface) (31/0)\n",
                    " ",
                    df,
                    true,
                );
                f.append(" Aircraft Operational Status:\n");
            },
        }
        f
    }
}

impl Frame {
    /// The text of the frame: that of its body where the body is laid out
    /// as an extended squitter, and nothing otherwise.
    pub open spec fn text(self, heading: u16) -> Seq<char> {
        match self.df {
            DF::ADSB(body) => body.text(17, heading),
            DF::TisB(ControlField::TISB_DF17(body)) => body.text(18, heading),
            DF::TisB(_) => Seq::<char>::empty(),
        }
    }

    /// Renders the frame. The heading of a ground speed message is
    /// `heading`, in whole degrees.
    pub fn to_string(&self, heading: u16) -> (out: String)
        ensures
            out@ == self.text(heading),
    {
        match &self.df {
            DF::ADSB(body) => body.to_string(17, heading),
            DF::TisB(ControlField::TISB_DF17(body)) => body.to_string(18, heading),
            DF::TisB(_) => String::new(),
        }
    }
}

} // verus!
