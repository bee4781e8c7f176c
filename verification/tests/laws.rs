use adsb_deku::adsb::ME;
use adsb_deku::bits::BitReader;
use adsb_deku::error::DecodeError;
use adsb_deku::frame::{decode, Frame, DF};
use adsb_deku::status::OperationStatus;

fn buffers() -> Vec<[u8; 14]> {
    let mut state: u64 = 0x2545_F491_4F6C_DD1D;
    let mut out = Vec::new();
    for round in 0..720u32 {
        let mut buffer = [0u8; 14];
        for byte in buffer.iter_mut() {
            state = state.wrapping_mul(6364136223846793005).wrapping_add(1442695040888963407);
            *byte = (state >> 56) as u8;
        }
        match round % 6 {
            0 => buffer[0] = 0x88 | (buffer[0] & 7),
            1 => buffer[0] = 0x90 | (buffer[0] & 7),
            2 => {},
            _ => {
                buffer[0] = 0x8D;
                buffer[4] = (((round / 6) % 32) as u8) << 3 | (buffer[4] & 7);
            },
        }
        out.push(buffer);
    }
    out
}

#[test]
fn every_frame_is_read_to_its_last_bit() {
    let mut decoded = 0;
    for buffer in buffers() {
        let outcome = decode(&buffer);
        let mut r = BitReader::new(&buffer);
        let read = Frame::read(&mut r);
        assert_eq!(read, outcome);
        if outcome.is_ok() {
            decoded += 1;
            assert_eq!(r.position(), 112);
            assert_eq!(r.remaining(), 0);
        } else {
            assert!(outcome != Err(DecodeError::TrailingBytes));
        }
    }
    assert!(decoded > 200);
}

#[test]
fn every_message_is_one_that_fits() {
    for buffer in buffers() {
        let body = match decode(&buffer) {
            Ok(Frame { df: DF::ADSB(body) }) => body,
            _ => continue,
        };
        let tc = buffer[4] >> 3;
        match body.me {
            ME::AircraftIdentification(_) => assert!((1..=4).contains(&tc)),
            ME::SurfacePosition(_) => assert!((5..=8).contains(&tc)),
            ME::AirbornePositionBaroAltitude(position) => {
                assert!((9..=18).contains(&tc));
                assert_eq!(position.tc, tc);
            },
            ME::AirborneVelocity(_) => assert_eq!(tc, 19),
            ME::AirbornePositionGNSSAltitude(position) => {
                assert!((20..=22).contains(&tc));
                assert_eq!(position.tc, tc);
            },
            ME::Reserved => assert!((23..=27).contains(&tc)),
            ME::AircraftStatus(_) => assert_eq!(tc, 28),
            ME::TargetStateAndStatusInformation(_) => assert_eq!(tc, 29),
            ME::AircraftOperationStatus(OperationStatus::Airborne(_)) => assert_eq!(tc, 31),
            ME::AircraftOperationStatus(OperationStatus::Surface(_)) => {
                panic!("a surface status takes more than its block holds")
            },
        }
        assert_eq!(body.pi, u32::from_be_bytes([0, buffer[11], buffer[12], buffer[13]]));
        assert_eq!(body.icao.0, u32::from_be_bytes([0, buffer[1], buffer[2], buffer[3]]));
    }
}

#[test]
fn callsigns_hold_letters_digits_and_hash_only() {
    let mut seen = 0;
    for buffer in buffers() {
        if let Ok(Frame { df: DF::ADSB(body) }) = decode(&buffer) {
            if let ME::AircraftIdentification(id) = body.me {
                seen += 1;
                assert!(id.cn.chars().count() <= 8);
                for c in id.cn.chars() {
                    assert!(c.is_ascii_uppercase() || c.is_ascii_digit() || c == '#');
                }
            }
        }
    }
    assert!(seen > 20);
}

#[test]
fn squawks_hold_octal_digits_only() {
    let mut seen = 0;
    for buffer in buffers() {
        if let Ok(Frame { df: DF::ADSB(body) }) = decode(&buffer) {
            if let ME::AircraftStatus(status) = body.me {
                seen += 1;
                for place in 0..4 {
                    assert!((status.squawk >> (4 * place)) & 0xF <= 7);
                }
                assert!(status.squawk <= 0x7777);
            }
        }
    }
    assert!(seen > 3);
}

#[test]
fn rendering_is_a_function_of_the_bytes() {
    for buffer in buffers() {
        if let (Ok(first), Ok(second)) = (decode(&buffer), decode(&buffer)) {
            assert_eq!(first, second);
            assert_eq!(first.to_string(90), second.to_string(90));
        }
    }
}
