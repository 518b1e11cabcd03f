use cycling_trainer::data::heart_rate_measurement::{parse_hrm_data, HeartRateMeasurement};
use cycling_trainer::error::Error;

#[test]
fn one_byte_heart_rate_without_contact_support() {
    assert_eq!(
        parse_hrm_data(&vec![0x00, 80]),
        Ok(HeartRateMeasurement {
            bpm: 80,
            is_sensor_contact_supported: false,
            is_sensor_in_contact: false
        })
    );
}

#[test]
fn two_byte_heart_rate_with_contact() {
    assert_eq!(
        parse_hrm_data(&vec![0x07, 100, 0]),
        Ok(HeartRateMeasurement {
            bpm: 100,
            is_sensor_contact_supported: true,
            is_sensor_in_contact: true
        })
    );
}

#[test]
fn two_byte_heart_rate_has_its_low_byte_first() {
    assert_eq!(parse_hrm_data(&vec![0x01, 0x2C, 0x01]).unwrap().bpm, 300);
    assert_eq!(parse_hrm_data(&vec![0x01, 0xFF, 0xFF]).unwrap().bpm, 65535);
    // Without bit 0 only one byte is read.
    assert_eq!(parse_hrm_data(&vec![0x00, 0x2C, 0x01]).unwrap().bpm, 0x2C);
    assert_eq!(parse_hrm_data(&vec![0x00, 255]).unwrap().bpm, 255);
}

#[test]
fn sensor_contact_bits() {
    // 00 and 01: not supported.
    let none = parse_hrm_data(&vec![0b000, 60]).unwrap();
    assert!(!none.is_sensor_contact_supported && !none.is_sensor_in_contact);
    let contact_bit_alone = parse_hrm_data(&vec![0b010, 60]).unwrap();
    assert!(!contact_bit_alone.is_sensor_contact_supported);
    assert!(!contact_bit_alone.is_sensor_in_contact);
    // 10: supported, not in contact.
    let supported = parse_hrm_data(&vec![0b100, 60]).unwrap();
    assert!(supported.is_sensor_contact_supported && !supported.is_sensor_in_contact);
    // 11: supported and in contact.
    let contact = parse_hrm_data(&vec![0b110, 60]).unwrap();
    assert!(contact.is_sensor_contact_supported && contact.is_sensor_in_contact);
}

#[test]
fn energy_and_rr_interval_bits_do_not_move_the_heart_rate() {
    let measurement = parse_hrm_data(&vec![0b11000, 72, 1, 2, 3, 4]).unwrap();
    assert_eq!(measurement.bpm, 72);
    assert!(!measurement.is_sensor_contact_supported);
}

#[test]
fn short_heart_rate_payloads_are_parse_errors() {
    assert_eq!(parse_hrm_data(&vec![]), Err(Error::ParseError));
    assert_eq!(parse_hrm_data(&vec![0x00]), Err(Error::ParseError));
    assert_eq!(parse_hrm_data(&vec![0x01]), Err(Error::ParseError));
    assert_eq!(parse_hrm_data(&vec![0x01, 100]), Err(Error::ParseError));
    assert_eq!(parse_hrm_data(&vec![0x07, 100]), Err(Error::ParseError));
}
