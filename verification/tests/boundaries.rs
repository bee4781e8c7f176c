use adsb_deku::altitude::baro_altitude;
use adsb_deku::mode_ac::{decode_id13_field, mode_a_to_mode_c};
use adsb_deku::types::Sign;
use adsb_deku::units::{
    altimeter_setting, gnss_baro_difference, rescale, target_altitude, target_heading,
};
use adsb_deku::velocity::{
    floor_sqrt, AirborneVelocity, AirborneVelocitySubType, AirspeedDecoding, GroundSpeedDecoding,
    VerticalRateSource,
};

fn ground_speed_message(st: u8, ew: (Sign, u16), ns: (Sign, u16), vrate: (Sign, u16)) -> AirborneVelocity {
    AirborneVelocity {
        st,
        extra: 0,
        sub_type: AirborneVelocitySubType::GroundSpeedDecoding(GroundSpeedDecoding {
            ew_sign: ew.0,
            ew_vel: ew.1,
            ns_sign: ns.0,
            ns_vel: ns.1,
        }),
        vrate_src: VerticalRateSource::BarometricPressureAltitude,
        vrate_sign: vrate.0,
        vrate_value: vrate.1,
        reverved: 0,
        gnss_sign: Sign::Positive,
        gnss_baro_diff: 0,
    }
}

#[test]
fn vertical_rate_of_zero_field_is_none() {
    let message = ground_speed_message(1, (Sign::Positive, 5), (Sign::Positive, 5), (Sign::Positive, 0));
    assert_eq!(message.vertical_rate(), None);
    assert_eq!(message.calculate(), None);
    assert_eq!(message.velocity(), Some((4, 4)));
}

#[test]
fn vertical_rate_counts_from_one() {
    let one = ground_speed_message(1, (Sign::Positive, 5), (Sign::Positive, 5), (Sign::Negative, 1));
    assert_eq!(one.vertical_rate(), Some(0));
    let two = ground_speed_message(1, (Sign::Positive, 5), (Sign::Positive, 5), (Sign::Positive, 2));
    assert_eq!(two.vertical_rate(), Some(64));
    let top = ground_speed_message(1, (Sign::Positive, 5), (Sign::Positive, 5), (Sign::Negative, 511));
    assert_eq!(top.vertical_rate(), Some(-32640));
    let wide = ground_speed_message(1, (Sign::Positive, 5), (Sign::Positive, 5), (Sign::Positive, 65535));
    assert_eq!(wide.vertical_rate(), Some(65534 * 64));
}

#[test]
fn speeds_of_one_are_standing_still() {
    let message = ground_speed_message(1, (Sign::Positive, 1), (Sign::Positive, 1), (Sign::Positive, 1));
    let (east, north, rate) = message.calculate().unwrap();
    assert_eq!((east, north, rate), (0, 0, 0));
    assert_eq!(message.ground_speed(), Some(0));
    let course = (east as f64).atan2(north as f64).to_degrees();
    assert_eq!(course, 0.0);
    assert_eq!((east as f64).hypot(north as f64), 0.0);
}

#[test]
fn a_zero_speed_is_no_velocity() {
    let no_east = ground_speed_message(1, (Sign::Positive, 0), (Sign::Positive, 7), (Sign::Positive, 3));
    assert_eq!(no_east.velocity(), None);
    assert_eq!(no_east.ground_speed(), None);
    assert_eq!(no_east.calculate(), None);
    assert_eq!(no_east.vertical_rate(), Some(128));
    let no_north = ground_speed_message(1, (Sign::Positive, 7), (Sign::Positive, 0), (Sign::Positive, 3));
    assert_eq!(no_north.velocity(), None);
}

#[test]
fn supersonic_speeds_count_in_fours() {
    let slow = ground_speed_message(1, (Sign::Negative, 4), (Sign::Positive, 5), (Sign::Positive, 1));
    assert_eq!(slow.velocity(), Some((-3, 4)));
    assert_eq!(slow.ground_speed(), Some(5));
    let fast = ground_speed_message(2, (Sign::Negative, 4), (Sign::Positive, 5), (Sign::Positive, 1));
    assert_eq!(fast.velocity(), Some((-12, 16)));
    assert_eq!(fast.ground_speed(), Some(20));
    let top = ground_speed_message(2, (Sign::Positive, 1023), (Sign::Negative, 1023), (Sign::Positive, 1));
    assert_eq!(top.velocity(), Some((4088, -4088)));
    assert_eq!(top.ground_speed(), Some(5781));
}

#[test]
fn heading_from_components_lies_in_the_circle() {
    let cases = [(1u16, 1u16), (2, 1), (1, 2), (9, 160), (1023, 1023), (1023, 2), (2, 1023)];
    let signs = [Sign::Positive, Sign::Negative];
    for (ew, ns) in cases {
        for ew_sign in signs {
            for ns_sign in signs {
                let message = ground_speed_message(1, (ew_sign, ew), (ns_sign, ns), (Sign::Positive, 1));
                let (east, north, _) = message.calculate().unwrap();
                let course = (east as f64).atan2(north as f64).to_degrees();
                let heading = if course < 0.0 { course + 360.0 } else { course };
                assert!(0.0 <= heading && heading < 360.0);
            }
        }
    }
}

#[test]
fn airspeed_messages_have_no_ground_velocity() {
    let message = AirborneVelocity {
        st: 4,
        extra: 0,
        sub_type: AirborneVelocitySubType::AirspeedDecoding(AirspeedDecoding {
            status_heading: 1,
            mag_heading: 512,
            airspeed_type: 0,
            airspeed: 300,
        }),
        vrate_src: VerticalRateSource::GeometricAltitude,
        vrate_sign: Sign::Positive,
        vrate_value: 3,
        reverved: 0,
        gnss_sign: Sign::Positive,
        gnss_baro_diff: 0,
    };
    assert_eq!(message.velocity(), None);
    assert_eq!(message.calculate(), None);
    assert_eq!(message.airspeed(), Some(1200));
    assert_eq!(message.vertical_rate(), Some(128));
}

#[test]
fn altimeter_setting_steps() {
    assert_eq!(altimeter_setting(0), 0);
    assert_eq!(altimeter_setting(1), 8000);
    assert_eq!(altimeter_setting(2), 8008);
    assert_eq!(altimeter_setting(0) as f64 / 10.0, 0.0);
    assert_eq!(altimeter_setting(1) as f64 / 10.0, 800.0);
    assert_eq!(altimeter_setting(2) as f64 / 10.0, 800.8);
    assert_eq!(altimeter_setting(268), 10136);
    assert_eq!(altimeter_setting(511), 12080);
}

#[test]
fn target_altitude_steps() {
    assert_eq!(target_altitude(0), 0);
    assert_eq!(target_altitude(1), 0);
    assert_eq!(target_altitude(2), 32);
    assert_eq!(target_altitude(1064), 34016);
    assert_eq!(target_altitude(4095), 131008);
}

#[test]
fn gnss_difference_steps() {
    assert_eq!(gnss_baro_difference(0), 0);
    assert_eq!(gnss_baro_difference(1), 0);
    assert_eq!(gnss_baro_difference(2), 25);
    assert_eq!(gnss_baro_difference(23), 550);
    assert_eq!(gnss_baro_difference(127), 3150);
}

#[test]
fn fields_that_count_from_one() {
    for scale in [1u16, 4, 25, 32, 64] {
        assert_eq!(rescale(0, scale), 0);
        assert_eq!(rescale(1, scale), 0);
        for raw in [2u16, 3, 100, 511, 65535] {
            assert_eq!(rescale(raw, scale), (raw as u32 - 1) * scale as u32);
        }
    }
    assert_eq!(rescale(65535, 65535), 65534 * 65535);
}

#[test]
fn target_heading_in_sixty_fourths() {
    assert_eq!(target_heading(0), 0);
    assert_eq!(target_heading(1), 45);
    assert_eq!(target_heading(256), 11520);
    assert_eq!(target_heading(256) as f64 / 64.0, 180.0);
    assert_eq!(target_heading(511) as f64 / 64.0, 511.0 * 180.0 / 256.0);
}

#[test]
fn sign_factors() {
    assert_eq!(Sign::Positive.value(), 1);
    assert_eq!(Sign::Negative.value(), -1);
    assert_eq!(Sign::Positive.apply(7), 7);
    assert_eq!(Sign::Negative.apply(7), -7);
    assert_eq!(Sign::Negative.apply(0), 0);
    assert_eq!(Sign::Negative.apply(0x7FFF_FFFF), -0x7FFF_FFFF);
}

#[test]
fn square_roots_round_down() {
    assert_eq!(floor_sqrt(0), 0);
    assert_eq!(floor_sqrt(1), 1);
    assert_eq!(floor_sqrt(3), 1);
    assert_eq!(floor_sqrt(4), 2);
    assert_eq!(floor_sqrt(25344), 159);
    assert_eq!(floor_sqrt(25345), 159);
    assert_eq!(floor_sqrt(25600), 160);
    assert_eq!(floor_sqrt(u64::MAX), 0xFFFF_FFFF);
    for n in 0u64..2000 {
        let root = floor_sqrt(n);
        assert!(root * root <= n && n < (root + 1) * (root + 1));
    }
}

#[test]
fn altitude_in_25_ft_steps() {
    assert_eq!(baro_altitude(0xC38), Some(38000));
    assert_eq!(baro_altitude(0x010), Some(-1000));
    assert_eq!(baro_altitude(0x011), Some(-975));
    assert_eq!(baro_altitude(0xFFF), Some(50175));
    assert_eq!(baro_altitude(0xFC38), Some(38000));
    for field in 0u16..4096 {
        if field & 0x10 != 0 {
            let feet = baro_altitude(field).unwrap();
            assert!(-1000 <= feet && feet <= 126_675);
            assert_eq!((feet + 1000) % 25, 0);
        }
    }
}

#[test]
fn altitude_in_gillham_code() {
    assert_eq!(baro_altitude(0x000), None);
    assert_eq!(baro_altitude(0x001), None);
    assert_eq!(baro_altitude(0x800), Some(-800));
    assert_eq!(baro_altitude(0x200), Some(-1000));
    assert_eq!(baro_altitude(0x080), Some(-1200));
    assert_eq!(baro_altitude(0x0A2), Some(1800));
    assert_eq!(baro_altitude(0x2A2), Some(1900));
    assert_eq!(baro_altitude(0x480), Some(30700));
    assert_eq!(baro_altitude(0x084), Some(126700));
    assert_eq!(baro_altitude(0xA80), None);
    assert_eq!(baro_altitude(0x400), None);
    assert_eq!(baro_altitude(0x880), None);
    assert_eq!(baro_altitude(0xFEF), None);
}

#[test]
fn gillham_code_to_hundreds_of_feet() {
    assert_eq!(mode_a_to_mode_c(0x0010), Some(-8));
    assert_eq!(mode_a_to_mode_c(0x0020), Some(-10));
    assert_eq!(mode_a_to_mode_c(0x0040), Some(-12));
    assert_eq!(mode_a_to_mode_c(0x0030), Some(-9));
    assert_eq!(mode_a_to_mode_c(0x0060), Some(-11));
    assert_eq!(mode_a_to_mode_c(0x0410), Some(-7));
    assert_eq!(mode_a_to_mode_c(0x0440), Some(-3));
    assert_eq!(mode_a_to_mode_c(0x4020), Some(65));
    assert_eq!(mode_a_to_mode_c(0x0614), Some(613));
    assert_eq!(mode_a_to_mode_c(0x0050), None);
    assert_eq!(mode_a_to_mode_c(0x0070), None);
    assert_eq!(mode_a_to_mode_c(0x0000), None);
    assert_eq!(mode_a_to_mode_c(0x0001), None);
    assert_eq!(mode_a_to_mode_c(0x7776), None);
    assert_eq!(mode_a_to_mode_c(0x0018), None);
    assert_eq!(mode_a_to_mode_c(0x1_0010), None);
}

#[test]
fn identity_field_to_octal_digits() {
    assert_eq!(decode_id13_field(0x12B6), 0x6513);
    assert_eq!(decode_id13_field(0x0AAA), 0x7700);
    assert_eq!(decode_id13_field(0x1FFF), 0x7777);
    assert_eq!(decode_id13_field(0x0040), 0);
    assert_eq!(decode_id13_field(0), 0);
    assert_eq!(decode_id13_field(0x1000), 0x0010);
    assert_eq!(decode_id13_field(0x0001), 0x0004);
    assert_eq!(decode_id13_field(0xFFFF_E000), 0);
    for field in 0u32..0x2000 {
        let code = decode_id13_field(field);
        for place in 0..4 {
            assert!((code >> (4 * place)) & 0xF <= 7);
        }
        assert_eq!(code >> 16, 0);
    }
}
