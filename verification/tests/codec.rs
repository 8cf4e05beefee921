use ds1307::decimal_to_packed_bcd;
use ds1307::is_24h_format;
use ds1307::is_am;
use ds1307::packed_bcd_to_decimal;
use ds1307::remove_ch_bit;

#[test]
fn can_convert_packed_bcd_to_decimal() {
    assert_eq!(0, packed_bcd_to_decimal(0b0000_0000));
    assert_eq!(1, packed_bcd_to_decimal(0b0000_0001));
    assert_eq!(9, packed_bcd_to_decimal(0b0000_1001));
    assert_eq!(10, packed_bcd_to_decimal(0b0001_0000));
    assert_eq!(11, packed_bcd_to_decimal(0b0001_0001));
    assert_eq!(19, packed_bcd_to_decimal(0b0001_1001));
    assert_eq!(20, packed_bcd_to_decimal(0b0010_0000));
    assert_eq!(21, packed_bcd_to_decimal(0b0010_0001));
    assert_eq!(59, packed_bcd_to_decimal(0b0101_1001));
}

#[test]
fn can_convert_decimal_to_packed_bcd() {
    assert_eq!(0b0000_0000, decimal_to_packed_bcd(0));
    assert_eq!(0b0000_0001, decimal_to_packed_bcd(1));
    assert_eq!(0b0000_1001, decimal_to_packed_bcd(9));
    assert_eq!(0b0001_0000, decimal_to_packed_bcd(10));
    assert_eq!(0b0001_0001, decimal_to_packed_bcd(11));
    assert_eq!(0b0001_1001, decimal_to_packed_bcd(19));
    assert_eq!(0b0010_0000, decimal_to_packed_bcd(20));
    assert_eq!(0b0010_0001, decimal_to_packed_bcd(21));
    assert_eq!(0b0101_1001, decimal_to_packed_bcd(59));
}

#[test]
fn bcd_round_trips_for_every_two_digit_value() {
    for dec in 0..=99u8 {
        assert_eq!(dec, packed_bcd_to_decimal(decimal_to_packed_bcd(dec)));
    }
}

#[test]
fn flag_helpers_read_the_right_bits() {
    assert!(is_24h_format(0b0010_0011));
    assert!(!is_24h_format(0b0101_0010));
    assert!(is_am(0b0101_0010));
    assert!(!is_am(0b0111_0010));
    assert_eq!(0b0101_1001, remove_ch_bit(0b1101_1001));
    assert_eq!(0b0101_1001, remove_ch_bit(0b0101_1001));
}
