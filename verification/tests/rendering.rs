use adsb_deku::adsb::{TypeCoding, ADSB, ME};
use adsb_deku::frame::{decode, DF};
use adsb_deku::line::decode_hex;
use adsb_deku::status::{ADSBVersion, CapabilityCode, OperationStatus, OperationStatusSurface};
use adsb_deku::text::{push_decimal, push_fixed_point, push_hex, push_signed, push_sixty_fourths, push_tenths};
use adsb_deku::types::{CPRFormat, Capability, Sign, ICAO};
use adsb_deku::altitude::Unit;
use adsb_deku::velocity::VerticalRateSource;

fn written(write: impl Fn(&mut String)) -> String {
    let mut s = String::from(">");
    write(&mut s);
    assert!(s.starts_with('>'));
    s[1..].to_string()
}

#[test]
fn decimal_numerals() {
    for n in [0u64, 1, 9, 10, 11, 99, 100, 101, 38000, 1_000_000, u64::MAX] {
        assert_eq!(written(|s| push_decimal(s, n)), format!("{}", n));
    }
    for n in [0i64, -1, 1, -9, -10, 832, -832, i64::MAX, i64::MIN, i64::MIN + 1] {
        assert_eq!(written(|s| push_signed(s, n)), format!("{}", n));
    }
}

#[test]
fn hexadecimal_numerals() {
    assert_eq!(written(|s| push_hex(s, 0x4840D6, 6)), "4840D6");
    assert_eq!(written(|s| push_hex(s, 0xABCDEF, 6)), "ABCDEF");
    assert_eq!(written(|s| push_hex(s, 0x0F, 4)), "000F");
    assert_eq!(written(|s| push_hex(s, 0x123456, 2)), "56");
    assert_eq!(written(|s| push_hex(s, 0x123456, 0)), "");
    assert_eq!(written(|s| push_hex(s, u64::MAX, 16)), "FFFFFFFFFFFFFFFF");
    assert_eq!(written(|s| push_hex(s, 0x9A, 3)), "09A");
}

#[test]
fn fixed_point_numerals() {
    assert_eq!(written(|s| push_tenths(s, 0)), "0");
    assert_eq!(written(|s| push_tenths(s, 8000)), "800");
    assert_eq!(written(|s| push_tenths(s, 8008)), "800.8");
    assert_eq!(written(|s| push_tenths(s, 10136)), "1013.6");
    assert_eq!(written(|s| push_tenths(s, 5)), "0.5");
    assert_eq!(written(|s| push_sixty_fourths(s, 0)), "0");
    assert_eq!(written(|s| push_sixty_fourths(s, 45)), "0.703125");
    assert_eq!(written(|s| push_sixty_fourths(s, 64)), "1");
    assert_eq!(written(|s| push_sixty_fourths(s, 32)), "0.5");
    assert_eq!(written(|s| push_sixty_fourths(s, 1)), "0.015625");
    assert_eq!(written(|s| push_sixty_fourths(s, 4)), "0.0625");
    assert_eq!(written(|s| push_sixty_fourths(s, 11520)), "180");
    assert_eq!(written(|s| push_sixty_fourths(s, 22995)), "359.296875");
    assert_eq!(written(|s| push_fixed_point(s, 7, 5, 100)), "7.005");
    assert_eq!(written(|s| push_fixed_point(s, 7, 500, 100)), "7.5");
    assert_eq!(written(|s| push_fixed_point(s, 7, 120, 100)), "7.12");
    assert_eq!(written(|s| push_fixed_point(s, 7, 0, 100)), "7");
    assert_eq!(written(|s| push_fixed_point(s, 0, 999, 100)), "0.999");
    for n in 0u32..2048 {
        let text = written(|s| push_sixty_fourths(s, n));
        assert_eq!(text.parse::<f64>().unwrap(), n as f64 / 64.0);
        assert!(!text.contains('.') || !text.ends_with('0'));
    }
}

#[test]
fn names() {
    assert_eq!(Capability::AG_UNCERTAIN.label(), "uncertain1");
    assert_eq!(Capability::Reserved.label(), "reserved");
    assert_eq!(Capability::AG_GROUND.label(), "ground");
    assert_eq!(Capability::AG_AIRBORNE.label(), "airborne");
    assert_eq!(Capability::AG_UNCERTAIN2.label(), "uncertain2");
    assert_eq!(Capability::AG_UNCERTAIN3.label(), "airborne?");
    assert_eq!(Sign::Positive.label(), "");
    assert_eq!(Sign::Negative.label(), "-");
    assert_eq!(CPRFormat::Even.label(), "even");
    assert_eq!(CPRFormat::Odd.label(), "odd");
    assert_eq!(Unit::Feet.label(), "ft barometric");
    assert_eq!(Unit::Meter.label(), "m GNSS");
    assert_eq!(TypeCoding::D.to_string(), "D");
    assert_eq!(TypeCoding::C.to_string(), "C");
    assert_eq!(TypeCoding::B.to_string(), "B");
    assert_eq!(TypeCoding::A.to_string(), "A");
    assert_eq!(VerticalRateSource::BarometricPressureAltitude.to_string(), "barometric");
    assert_eq!(VerticalRateSource::GeometricAltitude.to_string(), "GNSS");
    assert_eq!(ADSBVersion::DOC9871AppendixA.to_string(), "0");
    assert_eq!(ADSBVersion::DOC9871AppendixB.to_string(), "1");
    assert_eq!(ADSBVersion::DOC9871AppendixC.to_string(), "2");
}

#[test]
fn capability_classes() {
    let none = CapabilityCode { reserved0: 3, acas: 0, cdti: 0, reserved1: 3, arv: 0, ts: 0, tc: 0, reserved2: 63 };
    assert_eq!(none.to_string(), "");
    let all = CapabilityCode { reserved0: 0, acas: 1, cdti: 1, reserved1: 0, arv: 1, ts: 1, tc: 1, reserved2: 0 };
    assert_eq!(all.to_string(), " ACAS CDTI ARV TS TC");
    let some = CapabilityCode { reserved0: 0, acas: 0, cdti: 1, reserved1: 0, arv: 0, ts: 1, tc: 2, reserved2: 0 };
    assert_eq!(some.to_string(), " CDTI TS");
}

#[test]
fn identification_text() {
    let frame = decode_hex("8D4840D6202CC371C32CE0576098").unwrap();
    assert_eq!(
        frame.to_string(0),
        " Extended Squitter Aircraft identification and category (4)\n  ICAO Address:  4840D6 (Mode S / ADS-B)\n  Air/Ground:    airborne\n  Ident:         KLM1023\n  Category:      A0\n"
    );
}

#[test]
fn barometric_position_text() {
    let frame = decode_hex("8D40621D58C382D690C8AC2863A7").unwrap();
    assert_eq!(
        frame.to_string(0),
        " Extended Squitter Airborne position (barometric altitude) (11)\n  ICAO Address:  40621D (Mode S / ADS-B)\n  Air/Ground:    airborne\n  Altitude:      38000 ft barometric\n  CPR type:      Airborne\n  CPR odd flag:  even\n  CPR latitude:  (93000)\n  CPR longitude: (51372)\n"
    );
    match frame.df {
        DF::ADSB(body) => match body.me {
            ME::AirbornePositionBaroAltitude(position) => {
                assert_eq!(
                    position.to_string(),
                    "  Altitude:      38000 ft barometric\n  CPR type:      Airborne\n  CPR odd flag:  even\n  CPR latitude:  (93000)\n  CPR longitude: (51372)\n"
                );
            },
            other => panic!("not a position: {:?}", other),
        },
        other => panic!("not an extended squitter: {:?}", other),
    }
}

#[test]
fn gnss_position_text() {
    let frame = decode_hex("8D40621DA0C006D690C8AD2863A7").unwrap();
    assert_eq!(
        frame.to_string(0),
        " Extended Squitter (Non-Transponder) Airborne position (GNSS altitude) (20)\n  ICAO Address:  40621D (Mode S / ADS-B)\n  Altitude:      3072 m GNSS\n  CPR type:      Airborne\n  CPR odd flag:  odd\n  CPR latitude:  (93000)\n  CPR longitude: (51373)\n"
    );
    let unknown = decode_hex("8D40621D580002D690C8AC2863A7").unwrap();
    assert_eq!(
        unknown.to_string(0),
        " Extended Squitter Airborne position (barometric altitude) (11)\n  ICAO Address:  40621D (Mode S / ADS-B)\n  Air/Ground:    airborne\n  Altitude:      None ft barometric\n  CPR type:      Airborne\n  CPR odd flag:  even\n  CPR latitude:  (93000)\n  CPR longitude: (51372)\n"
    );
    let low = decode_hex("8D40621D580102D690C8AC2863A7").unwrap();
    assert!(low.to_string(0).contains("  Altitude:      -1000 ft barometric\n"));
}

#[test]
fn ground_speed_text() {
    let frame = decode_hex("8D485020994409940838175B284F").unwrap();
    assert_eq!(
        frame.to_string(183),
        " Extended Squitter Airborne velocity over ground, subsonic (19/1)\n  ICAO Address:  485020 (Mode S / ADS-B)\n  Air/Ground:    airborne\n  GNSS delta:    550 ft\n  Heading:       183\n  Speed:         159 kt groundspeed\n  Vertical rate: -832 ft/min barometric\n"
    );
    // a zero vertical rate field: no velocity is shown
    let invalid = decode_hex("8D485020994409940800175B284F").unwrap();
    assert_eq!(
        invalid.to_string(183),
        " Extended Squitter Airborne velocity over ground, subsonic (19/1)\n  ICAO Address:  485020 (Mode S / ADS-B)\n  Air/Ground:    airborne\n  GNSS delta:    550 ft\n  Invalid packet\n"
    );
    // GNSS below barometric, geometric source, climbing
    let below = decode_hex("8D485020994409941028975B284F").unwrap();
    assert_eq!(
        below.to_string(0),
        " Extended Squitter Airborne velocity over ground, subsonic (19/1)\n  ICAO Address:  485020 (Mode S / ADS-B)\n  Air/Ground:    airborne\n  GNSS delta:    -550 ft\n  Heading:       0\n  Speed:         159 kt groundspeed\n  Vertical rate: 576 ft/min GNSS\n"
    );
}

#[test]
fn airspeed_has_no_text() {
    let frame = decode_hex("8DA05F219B06B6AF189400CBC33F").unwrap();
    assert_eq!(frame.to_string(244), "");
    let surface = decode_hex("8D4840D6282CC371C32CE0576098").unwrap();
    assert_eq!(surface.to_string(0), "");
}

#[test]
fn emergency_text() {
    let frame = decode_hex("8DA2C1B6E112B600000000760759").unwrap();
    assert_eq!(
        frame.to_string(0),
        " Extended Squitter Emergency/priority status (28/1)\n  ICAO Address:  A2C1B6 (Mode S / ADS-B)\n  Air/Ground:    airborne\n  Squawk:        25875\n"
    );
    match frame.df {
        DF::ADSB(body) => match body.me {
            ME::AircraftStatus(status) => {
                assert_eq!(status.squawk, 0x6513);
                assert_eq!(status.sub_type, adsb_deku::adsb::AircraftStatusType::EmergencyPriorityStatus);
                assert_eq!(status.emergency_state, adsb_deku::adsb::EmergencyState::NoEmergency);
                assert_eq!(body.pi, 0x760759);
            },
            other => panic!("not a status: {:?}", other),
        },
        other => panic!("not an extended squitter: {:?}", other),
    }
    let states = [
        ("00", adsb_deku::adsb::EmergencyState::NoEmergency),
        ("20", adsb_deku::adsb::EmergencyState::General),
        ("40", adsb_deku::adsb::EmergencyState::Lifeguard),
        ("80", adsb_deku::adsb::EmergencyState::MinimumFuel),
        ("A0", adsb_deku::adsb::EmergencyState::UnlawfulInterference),
        ("C0", adsb_deku::adsb::EmergencyState::Reserved1),
        ("E0", adsb_deku::adsb::EmergencyState::Reserved2),
    ];
    for (digits, state) in states {
        let bytes = hex::decode(format!("8D4840D6E0{}0000000000000000", digits)).unwrap();
        match decode(&bytes).unwrap().df {
            DF::ADSB(body) => match body.me {
                ME::AircraftStatus(status) => {
                    assert_eq!(status.emergency_state, state);
                    assert_eq!(status.sub_type, adsb_deku::adsb::AircraftStatusType::NoInformation);
                    assert_eq!(status.squawk, 0);
                },
                other => panic!("not a status: {:?}", other),
            },
            other => panic!("not an extended squitter: {:?}", other),
        }
    }
    let reserved = hex::decode("8D4840D6E7000000000000000000").unwrap();
    match decode(&reserved).unwrap().df {
        DF::ADSB(body) => match body.me {
            ME::AircraftStatus(status) => {
                assert_eq!(status.sub_type, adsb_deku::adsb::AircraftStatusType::Reserved);
            },
            other => panic!("not a status: {:?}", other),
        },
        other => panic!("not an extended squitter: {:?}", other),
    }
}

#[test]
fn target_state_text() {
    let frame = decode_hex("8D4CA251EA428860015F4DC16D1A").unwrap();
    assert_eq!(
        frame.to_string(0),
        " Extended Squitter Target state and status (V2) (29/1)\n  ICAO Address:  4CA251 (Mode S / ADS-B)\n  Air/Ground:    airborne\n  Target State and Status:\n    Target altitude:   MCP, 34016 ft\n    Altimeter setting: 1013.6 millibars\n    ACAS:              operational autopilot altitude-hold \n    NACp:              10\n    NICbaro:           1\n    SIL:               3 (per sample)\n"
    );
    // heading valid with raw 1, no altitude, no setting, ACAS off
    let other = decode_hex("8D4CA251EA000004020000C16D1A").unwrap();
    assert_eq!(
        other.to_string(0),
        " Extended Squitter Target state and status (V2) (29/1)\n  ICAO Address:  4CA251 (Mode S / ADS-B)\n  Air/Ground:    airborne\n  Target State and Status:\n    Target altitude:   MCP, 0 ft\n    Altimeter setting: 0 millibars\n    Target heading:    0.703125\n    ACAS:              NOT operational\n    NACp:              0\n    NICbaro:           0\n    SIL:               0 (per sample)\n"
    );
    // every mode flag set
    let flags = decode_hex("8D4CA251EA0000000003FCC16D1A").unwrap();
    assert!(flags
        .to_string(0)
        .contains("    ACAS:              operational autopilot  VNAC altitude-hold approach\n"));
}

#[test]
fn operational_status_text() {
    let frame = decode_hex("8D4840D6F82340060029B8000000").unwrap();
    assert_eq!(
        frame.to_string(0),
        " Extended Quitter Aircraft operational status (airborne) (31/0)\n ICAO Address:  4840D6 (Mode S / ADS-B)\n Air/Ground:    airborne\n Aircraft Operational Status:\n   Version:            1\n   Capability classes: ACAS ARV TS TC\n   Operational modes:  SAF SDA=2\n   NACp:               9\n   GVA:                2\n   SIL:                3 (per hour)\n   NICbaro:            1\n   Heading reference:  true north\n"
    );
    let magnetic = decode_hex("8D4840D6F8000000004004000000").unwrap();
    assert_eq!(
        magnetic.to_string(0),
        " Extended Quitter Aircraft operational status (airborne) (31/0)\n ICAO Address:  4840D6 (Mode S / ADS-B)\n Air/Ground:    airborne\n Aircraft Operational Status:\n   Version:            2\n   Capability classes:\n   Operational modes:  \n   NACp:               0\n   GVA:                0\n   SIL:                0 (per hour)\n   NICbaro:            0\n   Heading reference:  magnetic north\n"
    );
}

#[test]
fn surface_status_text_is_its_heading() {
    let codes = CapabilityCode { reserved0: 0, acas: 1, cdti: 0, reserved1: 0, arv: 0, ts: 0, tc: 0, reserved2: 0 };
    let status = OperationStatusSurface {
        capacity_codes: codes,
        capacity_len_code: 5,
        operational_mode_codes: 0,
        version_number: ADSBVersion::DOC9871AppendixC,
        nic_supplement_a: 0,
        navigational_accuracy_category: 7,
        reserved0: 0,
        source_integrity_level: 2,
        track_angle_or_heading: 0,
        horizontal_reference_direction: 0,
        sil_supplement: 0,
        reserved1: 0,
    };
    let body = ADSB {
        capability: Capability::AG_GROUND,
        icao: ICAO(0x00ABCD),
        me: ME::AircraftOperationStatus(OperationStatus::Surface(status)),
        pi: 0,
    };
    assert_eq!(
        body.to_string(17, 0),
        " Extended Quitter Aircraft operational status (surface) (31/0)\n ICAO Address:  00ABCD (Mode S / ADS-B)\n Air/Ground:    ground\n Aircraft Operational Status:\n"
    );
    assert_eq!(
        body.to_string(18, 0),
        " Extended Quitter Aircraft operational status (surface) (31/0)\n ICAO Address:  00ABCD (ADS-R)\n Air/Ground:    ground\n Aircraft Operational Status:\n"
    );
}
