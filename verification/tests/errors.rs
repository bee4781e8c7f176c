use adsb_deku::adsb::{ControlField, TypeCoding, ME};
use adsb_deku::error::DecodeError;
use adsb_deku::frame::{decode, DF};
use adsb_deku::line::{decode_hex, decode_line, LineError};
use adsb_deku::status::{ADSBVersion, OperationStatus};
use adsb_deku::types::{Capability, ICAO};

fn outcome(digits: &str) -> Result<adsb_deku::frame::Frame, DecodeError> {
    decode(&hex::decode(digits).unwrap())
}

#[test]
fn short_buffers_have_not_enough_bits() {
    assert_eq!(outcome("8D40621D58C382D690C8AC2863"), Err(DecodeError::NotEnoughBits));
    assert_eq!(outcome(""), Err(DecodeError::NotEnoughBits));
    assert_eq!(outcome("5D"), Err(DecodeError::NotEnoughBits));
}

#[test]
fn long_buffers_have_trailing_bytes() {
    assert_eq!(outcome("8D40621D58C382D690C8AC2863A700"), Err(DecodeError::TrailingBytes));
    assert_eq!(outcome("5D40621D58C382D690C8AC2863A70000"), Err(DecodeError::TrailingBytes));
}

#[test]
fn other_downlink_formats_are_unsupported() {
    assert_eq!(outcome("5D40621D58C382D690C8AC2863A7"), Err(DecodeError::UnsupportedDF));
    assert_eq!(outcome("0040621D58C382D690C8AC2863A7"), Err(DecodeError::UnsupportedDF));
    assert_eq!(outcome("9D40621D58C382D690C8AC2863A7"), Err(DecodeError::UnsupportedDF));
    assert_eq!(outcome("FF40621D58C382D690C8AC2863A7"), Err(DecodeError::UnsupportedDF));
}

#[test]
fn type_codes_without_a_layout_are_unsupported() {
    assert_eq!(outcome("8D4840D600000000000000000000"), Err(DecodeError::UnsupportedTypeCode));
    assert_eq!(outcome("8D4840D607FFFFFFFFFFFF000000"), Err(DecodeError::UnsupportedTypeCode));
    assert_eq!(outcome("8D4840D6F0000000000000000000"), Err(DecodeError::UnsupportedTypeCode));
}

#[test]
fn reserved_type_codes_carry_nothing() {
    for first in ["B8", "C0", "C8", "D0", "D8", "DF"] {
        let digits = format!("8D4840D6{}123456789ABCABCDEF", first);
        match outcome(&digits).unwrap().df {
            DF::ADSB(body) => {
                assert_eq!(body.me, ME::Reserved);
                assert_eq!(body.pi, 0xABCDEF);
                assert_eq!(body.to_string(17, 0), "");
            },
            other => panic!("not an extended squitter: {:?}", other),
        }
    }
}

#[test]
fn operational_status_subtypes() {
    assert_eq!(
        outcome("8D4840D6FA2340060029B8000000"),
        Err(DecodeError::UnsupportedOperationStatusSubtype)
    );
    assert_eq!(
        outcome("8D4840D6FF2340060029B8000000"),
        Err(DecodeError::UnsupportedOperationStatusSubtype)
    );
    match outcome("8D4840D6F82340060029B8000000").unwrap().df {
        DF::ADSB(body) => match body.me {
            ME::AircraftOperationStatus(OperationStatus::Airborne(status)) => {
                assert_eq!(status.version_number, ADSBVersion::DOC9871AppendixB);
                assert_eq!(status.version_number.deku_id(), 1);
                assert_eq!(status.capability_codes.acas, 1);
                assert_eq!(status.capability_codes.cdti, 0);
                assert_eq!(status.capability_codes.arv, 1);
                assert_eq!(status.capability_codes.ts, 1);
                assert_eq!(status.capability_codes.tc, 1);
                assert!(status.saf);
                assert_eq!(status.sda, 2);
                assert_eq!(status.navigational_accuracy_category, 9);
                assert_eq!(status.geometric_vertical_accuracy, 2);
                assert_eq!(status.source_integrity_level, 3);
                assert_eq!(status.barometric_altitude_integrity, 1);
                assert_eq!(status.horizontal_reference_direction, 0);
            },
            other => panic!("not an airborne status: {:?}", other),
        },
        other => panic!("not an extended squitter: {:?}", other),
    }
}

#[test]
fn surface_status_does_not_fit_its_block() {
    assert_eq!(outcome("8D4840D6F92340060029B8000000"), Err(DecodeError::NotEnoughBits));
}

#[test]
fn values_without_a_variant_are_out_of_range() {
    // velocity subtypes 0 and 5 to 7
    assert_eq!(outcome("8D48502098440994083817000000"), Err(DecodeError::DiscriminantOutOfRange));
    assert_eq!(outcome("8D4850209D440994083817000000"), Err(DecodeError::DiscriminantOutOfRange));
    assert_eq!(outcome("8D4850209F440994083817000000"), Err(DecodeError::DiscriminantOutOfRange));
    // emergency state 3
    assert_eq!(outcome("8D4840D6E16AAA00000000000000"), Err(DecodeError::DiscriminantOutOfRange));
    // standard edition 3 and 7
    assert_eq!(outcome("8D4840D6F82340060069B8000000"), Err(DecodeError::DiscriminantOutOfRange));
    assert_eq!(outcome("8D4840D6F823400600E9B8000000"), Err(DecodeError::DiscriminantOutOfRange));
    // control field 7
    assert_eq!(outcome("974840D6202CC371C32CE0576098"), Err(DecodeError::DiscriminantOutOfRange));
    assert_eq!(TypeCoding::from_id(0), Err(DecodeError::DiscriminantOutOfRange));
    assert_eq!(TypeCoding::from_id(5), Err(DecodeError::DiscriminantOutOfRange));
    assert_eq!(TypeCoding::from_id(1), Ok(TypeCoding::D));
    assert_eq!(TypeCoding::from_id(4), Ok(TypeCoding::A));
}

#[test]
fn control_fields_without_a_decoder_are_unsupported() {
    for first in ["92", "93", "94", "95"] {
        let digits = format!("{}4840D6202CC371C32CE0576098", first);
        assert_eq!(outcome(&digits), Err(DecodeError::UnsupportedControlField));
    }
}

#[test]
fn control_fields_zero_and_one_keep_the_message_bytes() {
    match outcome("904840D6202CC371C32CE0576098").unwrap().df {
        DF::TisB(ControlField::ADSB_ES_NT(body)) => {
            assert_eq!(body.aa, ICAO(0x4840D6));
            assert_eq!(body.me, vec![0x20, 0x2C, 0xC3, 0x71, 0xC3, 0x2C, 0xE0]);
            assert_eq!(body.pi, ICAO(0x576098));
        },
        other => panic!("not control field 0: {:?}", other),
    }
    let frame = outcome("914840D6202CC371C32CE0576098").unwrap();
    assert_eq!(frame.df.id(), 18);
    assert_eq!(frame.to_string(0), "");
    assert_eq!(frame.file_under(), None);
    match frame.df {
        DF::TisB(ControlField::ADSB_ES_NT_ALT(body)) => {
            assert_eq!(body.aa, ICAO(0x4840D6));
            assert_eq!(body.me.len(), 7);
        },
        other => panic!("not control field 1: {:?}", other),
    }
}

#[test]
fn control_field_six_is_laid_out_as_a_squitter() {
    let frame = outcome("964840D6202CC371C32CE0576098").unwrap();
    assert_eq!(frame.df.id(), 18);
    assert_eq!(
        frame.to_string(0),
        " Extended Squitter Aircraft identification and category (4)\n  ICAO Address:  4840D6 (ADS-R)\n  Air/Ground:    uncertain2\n  Ident:         KLM1023\n  Category:      A0\n"
    );
    match frame.df {
        DF::TisB(ControlField::TISB_DF17(body)) => {
            assert_eq!(body.capability, Capability::AG_UNCERTAIN2);
            assert_eq!(body.icao, ICAO(0x4840D6));
            assert_eq!(body.pi, 0x576098);
        },
        other => panic!("not control field 6: {:?}", other),
    }
}

#[test]
fn capability_values() {
    let expected = [
        Capability::AG_UNCERTAIN,
        Capability::Reserved,
        Capability::Reserved,
        Capability::Reserved,
        Capability::AG_GROUND,
        Capability::AG_AIRBORNE,
        Capability::AG_UNCERTAIN2,
        Capability::AG_UNCERTAIN3,
    ];
    for id in 0u8..8 {
        assert_eq!(Capability::from_id(id), expected[id as usize]);
        let digits = format!("{:02X}4840D6202CC371C32CE0576098", 0x88 | id);
        match outcome(&digits).unwrap().df {
            DF::ADSB(body) => assert_eq!(body.capability, expected[id as usize]),
            other => panic!("not an extended squitter: {:?}", other),
        }
    }
}

#[test]
fn lines_and_digits() {
    assert_eq!(decode_line(""), Err(LineError::Unframed));
    assert_eq!(decode_line("*;"), Err(LineError::Unframed));
    assert_eq!(decode_line("*8D40621D58C382D690C8AC2863A\u{e9};\n"), Err(LineError::Unframed));
    assert_eq!(decode_line("*;\n"), Err(LineError::Frame(DecodeError::NotEnoughBits)));
    assert_eq!(
        decode_line("*8D40621D58C382D690C8AC2863A;\n"),
        Err(LineError::Frame(DecodeError::NotEnoughBits))
    );
    assert_eq!(
        decode_line("*8D40621D58C382D690C8AC2863A700;\n"),
        Err(LineError::Frame(DecodeError::TrailingBytes))
    );
    assert_eq!(decode_line("*8D40621D58C382D690C8AC2863AG;\n"), Err(LineError::InvalidHex));
    assert_eq!(decode_hex("8D40621D58C382D690C8AC2863 7"), Err(LineError::InvalidHex));
    assert_eq!(
        decode_line("*5D40621D58C382D690C8AC2863A7;\n"),
        Err(LineError::Frame(DecodeError::UnsupportedDF))
    );
    // the framing characters are taken off unread
    assert!(decode_line("x8D40621D58C382D690C8AC2863A7yz").is_ok());
    // digits that would read back unchanged as bytes are not what is decoded
    assert_eq!(
        decode_hex("3844343036323144353843333832"),
        Err(LineError::Frame(DecodeError::UnsupportedDF))
    );
}

#[test]
fn only_barometric_positions_are_filed() {
    let position = decode_hex("8D40621D58C382D690C8AC2863A7").unwrap();
    assert_eq!(position.file_under(), Some(ICAO(0x40621D)));
    let identification = decode_hex("8D4840D6202CC371C32CE0576098").unwrap();
    assert_eq!(identification.file_under(), None);
    let velocity = decode_hex("8D485020994409940838175B284F").unwrap();
    assert_eq!(velocity.file_under(), None);
    let gnss = decode_hex("8D40621DA0C382D690C8AC2863A7").unwrap();
    assert_eq!(gnss.file_under(), None);
}
