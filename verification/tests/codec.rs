//! Reply decoding and the temperature unit conversion, on exact values.

use bq40z50::convert_temperature_centi;
use bq40z50::decode_word;

#[test]
fn decode_is_little_endian() {
    // Low byte first: [0xE8, 0x03] is 1000, not 59395.
    assert_eq!(decode_word(0xE8, 0x03), 1000);
}

#[test]
fn decode_zero() {
    assert_eq!(decode_word(0x00, 0x00), 0);
}

#[test]
fn decode_extremes() {
    assert_eq!(decode_word(0xFF, 0xFF), 65535);
    assert_eq!(decode_word(0x00, 0x01), 256);
    assert_eq!(decode_word(0x01, 0x00), 1);
}

#[test]
fn temperature_room() {
    // 2982 deci-Kelvin is 25.05 degrees Celsius.
    assert_eq!(convert_temperature_centi(2982), 2505);
}

#[test]
fn temperature_absolute_zero() {
    // A raw reading of 0 is -273.15 degrees Celsius.
    assert_eq!(convert_temperature_centi(0), -27315);
}

#[test]
fn temperature_largest_raw() {
    // The conversion cannot overflow even at the largest raw reading.
    assert_eq!(convert_temperature_centi(65535), 628035);
}
