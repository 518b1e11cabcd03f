use cycling_trainer::data::indoor_bike_data::{
    can_encode, encode_indoor_bike_data, get_average_cadence, get_average_speed, get_cadence,
    get_data_index, get_distance, get_flags, get_power, get_resistance_level, get_sample_flags,
    get_speed, is_ave_cadence_present, is_ave_speed_present, is_cadence_present,
    is_distance_present, is_power_present, is_resistance_present, is_speed_present,
    parse_indoor_bike_data, IndoorBikeData, IndoorBikeDataType,
};
use cycling_trainer::error::Error;

fn nothing() -> IndoorBikeData {
    IndoorBikeData::empty()
}

#[test]
fn speed_cadence_and_power() {
    // Flags 0x0044: speed (bit 0 clear), cadence (bit 2), power (bit 6).
    let data = vec![0x44, 0x00, 0x10, 0x0E, 0xB4, 0x00, 0xFA, 0x00];
    assert_eq!(
        parse_indoor_bike_data(&data),
        Ok(IndoorBikeData {
            speed: Some(36),
            cadence: Some(90),
            power: Some(250),
            ..nothing()
        })
    );
}

#[test]
fn every_field_present() {
    let data = vec![
        0x7E, 0x00, // flags: bits 1 to 6, speed present
        0xC4, 0x09, // speed 2500 -> 25 km/h
        0x60, 0x09, // average speed 2400 -> 24 km/h
        0xA0, 0x00, // cadence 160 -> 80 rpm
        0x9C, 0x00, // average cadence 156 -> 78 rpm
        0x56, 0x34, 0x12, // distance 0x123456 m
        0x07, // resistance level
        0x2C, 0x01, // power 300 W
    ];
    assert_eq!(
        parse_indoor_bike_data(&data),
        Ok(IndoorBikeData {
            speed: Some(25),
            average_speed: Some(24),
            cadence: Some(80),
            average_cadence: Some(78),
            distance: Some(0x123456),
            resistance_level: Some(7),
            power: Some(300),
        })
    );
}

#[test]
fn flags_alone_with_speed_absent() {
    assert_eq!(parse_indoor_bike_data(&vec![0x01, 0x00]), Ok(nothing()));
}

#[test]
fn power_follows_the_flags_where_nothing_else_is_present() {
    let data = vec![0x41, 0x00, 0xFA, 0x00];
    assert_eq!(
        parse_indoor_bike_data(&data),
        Ok(IndoorBikeData { power: Some(250), ..nothing() })
    );
    assert_eq!(get_data_index(&data, IndoorBikeDataType::Power), 2);
}

#[test]
fn power_is_signed() {
    let data = vec![0x41, 0x00, 0xFB, 0xFF];
    assert_eq!(parse_indoor_bike_data(&data).unwrap().power, Some(-5));
    let data = vec![0x41, 0x00, 0x00, 0x80];
    assert_eq!(parse_indoor_bike_data(&data).unwrap().power, Some(i16::MIN));
    let data = vec![0x41, 0x00, 0xFF, 0x7F];
    assert_eq!(parse_indoor_bike_data(&data).unwrap().power, Some(i16::MAX));
}

#[test]
fn units_round_down() {
    // Speed 3599 hundredths is 35 km/h; cadence 181 halves is 90 rpm.
    let data = vec![0x04, 0x00, 0x0F, 0x0E, 0xB5, 0x00];
    let sample = parse_indoor_bike_data(&data).unwrap();
    assert_eq!(sample.speed, Some(35));
    assert_eq!(sample.cadence, Some(90));
    let data = vec![0x00, 0x00, 0xFF, 0xFF];
    assert_eq!(parse_indoor_bike_data(&data).unwrap().speed, Some(655));
}

#[test]
fn offsets_walk_every_field_before() {
    // Average speed and distance present, speed absent: flags 0x13.
    let data = vec![0x13, 0x00, 0x01, 0x02, 0x03, 0x04, 0x05];
    assert_eq!(get_data_index(&data, IndoorBikeDataType::Speed), 2);
    assert_eq!(get_data_index(&data, IndoorBikeDataType::AverageSpeed), 2);
    assert_eq!(get_data_index(&data, IndoorBikeDataType::Cadence), 4);
    assert_eq!(get_data_index(&data, IndoorBikeDataType::AverageCadence), 4);
    assert_eq!(get_data_index(&data, IndoorBikeDataType::Distance), 4);
    assert_eq!(get_data_index(&data, IndoorBikeDataType::ResistanceLevel), 7);
    assert_eq!(get_data_index(&data, IndoorBikeDataType::Power), 7);
    assert_eq!(get_distance(&data), Some(0x050403));
    assert_eq!(get_average_speed(&data), Some(5));
    // Everything present: the largest offsets there are.
    let data = vec![0x7E, 0x00, 0, 0, 0, 0, 0, 0, 0, 0, 0, 0, 0, 0, 0, 0];
    assert_eq!(get_data_index(&data, IndoorBikeDataType::AverageSpeed), 4);
    assert_eq!(get_data_index(&data, IndoorBikeDataType::Cadence), 6);
    assert_eq!(get_data_index(&data, IndoorBikeDataType::AverageCadence), 8);
    assert_eq!(get_data_index(&data, IndoorBikeDataType::Distance), 10);
    assert_eq!(get_data_index(&data, IndoorBikeDataType::ResistanceLevel), 13);
    assert_eq!(get_data_index(&data, IndoorBikeDataType::Power), 14);
}

#[test]
fn presence_follows_the_flags() {
    let data = vec![0x00, 0x00, 0, 0];
    assert!(is_speed_present(&data));
    assert!(!is_ave_speed_present(&data));
    assert!(!is_cadence_present(&data));
    assert!(!is_ave_cadence_present(&data));
    assert!(!is_distance_present(&data));
    assert!(!is_resistance_present(&data));
    assert!(!is_power_present(&data));
    let data = vec![0x7F, 0x00];
    assert!(!is_speed_present(&data));
    assert!(is_ave_speed_present(&data));
    assert!(is_cadence_present(&data));
    assert!(is_ave_cadence_present(&data));
    assert!(is_distance_present(&data));
    assert!(is_resistance_present(&data));
    assert!(is_power_present(&data));
    assert_eq!(get_flags(&vec![0x34, 0x12]), 0x1234);
}

#[test]
fn getters_read_single_fields() {
    let data = vec![
        0x7E, 0x00, 0xC4, 0x09, 0x60, 0x09, 0xA0, 0x00, 0x9C, 0x00, 0x56, 0x34, 0x12, 0x07, 0x2C,
        0x01,
    ];
    assert_eq!(get_speed(&data), Some(25));
    assert_eq!(get_average_speed(&data), Some(24));
    assert_eq!(get_cadence(&data), Some(80));
    assert_eq!(get_average_cadence(&data), Some(78));
    assert_eq!(get_distance(&data), Some(0x123456));
    assert_eq!(get_resistance_level(&data), Some(7));
    assert_eq!(get_power(&data), Some(300));
    let data = vec![0x01, 0x00];
    assert_eq!(get_speed(&data), None);
    assert_eq!(get_average_speed(&data), None);
    assert_eq!(get_cadence(&data), None);
    assert_eq!(get_average_cadence(&data), None);
    assert_eq!(get_distance(&data), None);
    assert_eq!(get_resistance_level(&data), None);
    assert_eq!(get_power(&data), None);
}

#[test]
fn higher_flag_bits_and_trailing_bytes_are_passed_over() {
    // Bits 7 and up announce fields that follow the power; they are not read.
    let data = vec![0xC1, 0xFF, 0xFA, 0x00, 9, 9, 9, 9];
    assert_eq!(
        parse_indoor_bike_data(&data),
        Ok(IndoorBikeData { power: Some(250), ..nothing() })
    );
}

#[test]
fn short_payloads_are_parse_errors() {
    assert_eq!(parse_indoor_bike_data(&vec![]), Err(Error::ParseError));
    assert_eq!(parse_indoor_bike_data(&vec![0x00]), Err(Error::ParseError));
    // Speed is announced but missing.
    assert_eq!(parse_indoor_bike_data(&vec![0x00, 0x00]), Err(Error::ParseError));
    assert_eq!(parse_indoor_bike_data(&vec![0x00, 0x00, 0x10]), Err(Error::ParseError));
    // The last byte of the power is missing.
    assert_eq!(
        parse_indoor_bike_data(&vec![0x44, 0x00, 0x10, 0x0E, 0xB4, 0x00, 0xFA]),
        Err(Error::ParseError)
    );
    // The distance takes three bytes.
    assert_eq!(parse_indoor_bike_data(&vec![0x11, 0x00, 1, 2]), Err(Error::ParseError));
    assert!(parse_indoor_bike_data(&vec![0x11, 0x00, 1, 2, 3]).is_ok());
}

#[test]
fn encoding_writes_flags_then_fields_in_order() {
    let sample =
        IndoorBikeData { speed: Some(36), cadence: Some(90), power: Some(250), ..nothing() };
    assert_eq!(
        encode_indoor_bike_data(&sample),
        Some(vec![0x44, 0x00, 0x10, 0x0E, 0xB4, 0x00, 0xFA, 0x00])
    );
    assert_eq!(get_sample_flags(&sample), 0x44);
    assert_eq!(encode_indoor_bike_data(&nothing()), Some(vec![0x01, 0x00]));
    let all = IndoorBikeData {
        speed: Some(25),
        average_speed: Some(24),
        cadence: Some(80),
        average_cadence: Some(78),
        distance: Some(0x123456),
        resistance_level: Some(7),
        power: Some(-300),
    };
    assert_eq!(
        encode_indoor_bike_data(&all),
        Some(vec![
            0x7E, 0x00, 0xC4, 0x09, 0x60, 0x09, 0xA0, 0x00, 0x9C, 0x00, 0x56, 0x34, 0x12, 0x07,
            0xD4, 0xFE
        ])
    );
}

#[test]
fn fields_that_do_not_fit_are_not_encoded() {
    let too_fast = IndoorBikeData { speed: Some(656), ..nothing() };
    assert!(!can_encode(&too_fast));
    assert_eq!(encode_indoor_bike_data(&too_fast), None);
    let fast = IndoorBikeData { speed: Some(655), ..nothing() };
    assert!(can_encode(&fast));
    assert!(encode_indoor_bike_data(&fast).is_some());
    assert_eq!(
        encode_indoor_bike_data(&IndoorBikeData { average_speed: Some(656), ..nothing() }),
        None
    );
    assert_eq!(
        encode_indoor_bike_data(&IndoorBikeData { cadence: Some(32768), ..nothing() }),
        None
    );
    assert!(encode_indoor_bike_data(&IndoorBikeData { cadence: Some(32767), ..nothing() })
        .is_some());
    assert_eq!(
        encode_indoor_bike_data(&IndoorBikeData { average_cadence: Some(40000), ..nothing() }),
        None
    );
    assert_eq!(
        encode_indoor_bike_data(&IndoorBikeData { distance: Some(0x100_0000), ..nothing() }),
        None
    );
    assert!(encode_indoor_bike_data(&IndoorBikeData { distance: Some(0xFF_FFFF), ..nothing() })
        .is_some());
}

#[test]
fn decoding_inverts_encoding_for_every_combination_of_fields() {
    for combination in 0..128u32 {
        let sample = IndoorBikeData {
            speed: if combination & 1 != 0 { Some(36 + combination as u16) } else { None },
            average_speed: if combination & 2 != 0 { Some(655) } else { None },
            cadence: if combination & 4 != 0 { Some(90) } else { None },
            average_cadence: if combination & 8 != 0 { Some(32767) } else { None },
            distance: if combination & 16 != 0 { Some(1000 * combination) } else { None },
            resistance_level: if combination & 32 != 0 { Some(combination as u8) } else { None },
            power: if combination & 64 != 0 { Some(-(combination as i16)) } else { None },
        };
        let payload = encode_indoor_bike_data(&sample).unwrap();
        assert_eq!(parse_indoor_bike_data(&payload), Ok(sample));
    }
}

#[test]
fn field_sizes() {
    assert_eq!(IndoorBikeDataType::Speed.size(), 2);
    assert_eq!(IndoorBikeDataType::AverageSpeed.size(), 2);
    assert_eq!(IndoorBikeDataType::Cadence.size(), 2);
    assert_eq!(IndoorBikeDataType::AverageCadence.size(), 2);
    assert_eq!(IndoorBikeDataType::Distance.size(), 3);
    assert_eq!(IndoorBikeDataType::ResistanceLevel.size(), 1);
    assert_eq!(IndoorBikeDataType::Power.size(), 2);
}

#[test]
fn a_getter_needs_only_its_own_field() {
    // Cadence and power are announced, but the payload ends after the speed.
    let data = vec![0x44, 0x00, 0x10, 0x0E];
    assert_eq!(get_speed(&data), Some(36));
    assert_eq!(get_average_speed(&data), None);
    assert_eq!(get_distance(&data), None);
    assert_eq!(parse_indoor_bike_data(&data), Err(Error::ParseError));
}

