//! Pure conversions between decimal values and the chip's register bytes:
//! packed binary-coded decimal, the clock-halt flag of the seconds register,
//! and the mode/AM-PM flags of the hours register.

use vstd::prelude::*;

verus! {

/// Clock-halt flag, bit 7 of the seconds register. Owned by the peripheral;
/// the driver only preserves it.
pub const FLAG_CLOCK_HALT: u8 = 0b1000_0000;

/// Mode flag, bit 6 of the hours register: 0 selects 24-hour format,
/// 1 selects 12-hour format.
pub const FLAG_H24_H12: u8 = 0b0100_0000;

/// AM/PM flag, bit 5 of the hours register, meaningful only in 12-hour
/// format: 0 is AM, 1 is PM.
pub const FLAG_AM_PM: u8 = 0b0010_0000;

/// Hours in either 12-hour (AM/PM) or 24-hour format.
///
/// The variant chosen for a write also selects the peripheral's operating
/// mode, so setting the hours switches the chip between 12h and 24h form.
pub enum Hours {
    /// AM (1-12)
    AM(u8),
    /// PM (1-12)
    PM(u8),
    /// 24H format (0-23)
    H24(u8),
}

/// The decimal value of a packed-BCD byte: the high nibble counts tens, the
/// low nibble counts ones. Defined for every byte; meaningful only when both
/// nibbles are at most 9.
pub open spec fn bcd_to_decimal(bcd: u8) -> u8 {
    ((bcd >> 4) * 10 + (bcd & 0x0f)) as u8
}

/// The packed-BCD byte for a decimal value: tens digit in the high nibble,
/// ones digit in the low nibble. For values above 99 the tens digit
/// overflows the nibble and its upper bits are discarded.
pub open spec fn decimal_to_bcd(dec: u8) -> u8 {
    (((dec / 10) as u8) << 4) | ((dec % 10) as u8)
}

/// The seconds register byte with the clock-halt flag cleared.
pub open spec fn without_ch_bit(value: u8) -> u8 {
    value & !FLAG_CLOCK_HALT
}

/// Whether a hours register byte is in 24-hour format (mode flag clear).
pub open spec fn is_24h(hours_data: u8) -> bool {
    hours_data & FLAG_H24_H12 == 0
}

/// Whether a 12-hour-format hours register byte holds an AM hour
/// (AM/PM flag clear).
pub open spec fn is_am_hour(hours_data: u8) -> bool {
    hours_data & FLAG_AM_PM == 0
}

/// The hours value a register byte denotes: the mode flag picks 24-hour or
/// 12-hour form, the AM/PM flag is consulted only in 12-hour form, and the
/// remaining bits are decoded as packed BCD.
pub open spec fn hours_from_register(data: u8) -> Hours {
    if is_24h(data) {
        Hours::H24(bcd_to_decimal(data & !FLAG_H24_H12))
    } else if is_am_hour(data) {
        Hours::AM(bcd_to_decimal(data & !(FLAG_H24_H12 | FLAG_AM_PM)))
    } else {
        Hours::PM(bcd_to_decimal(data & !(FLAG_H24_H12 | FLAG_AM_PM)))
    }
}

/// Whether an hours value lies in the range its format allows.
pub open spec fn hours_valid(hours: Hours) -> bool {
    match hours {
        Hours::AM(h) => 1 <= h <= 12,
        Hours::PM(h) => 1 <= h <= 12,
        Hours::H24(h) => h <= 23,
    }
}

/// The register byte written for an hours value: the BCD hour with the mode
/// bits the variant implies.
pub open spec fn hours_to_register(hours: Hours) -> u8 {
    match hours {
        Hours::AM(h) => FLAG_H24_H12 | decimal_to_bcd(h),
        Hours::PM(h) => FLAG_H24_H12 | FLAG_AM_PM | decimal_to_bcd(h),
        Hours::H24(h) => decimal_to_bcd(h),
    }
}

/// The seconds register byte written for a new seconds value: the clock-halt
/// flag of the current register content, kept as it is, with the BCD seconds
/// below it.
pub open spec fn seconds_register_update(current: u8, seconds: u8) -> u8 {
    (current & FLAG_CLOCK_HALT) | decimal_to_bcd(seconds)
}

/// Whether the hours register byte selects 24-hour format.
pub fn is_24h_format(hours_data: u8) -> (r: bool)
    ensures
        r == is_24h(hours_data),
{
    hours_data & FLAG_H24_H12 == 0
}

/// Whether a 12-hour-format hours register byte holds an AM hour.
pub fn is_am(hours_data: u8) -> (r: bool)
    ensures
        r == is_am_hour(hours_data),
{
    hours_data & FLAG_AM_PM == 0
}

/// Clears the clock-halt flag so the seconds can be decoded independently
/// of the chip's run/stop state.
pub fn remove_ch_bit(value: u8) -> (r: u8)
    ensures
        r == without_ch_bit(value),
{
    value & !FLAG_CLOCK_HALT
}

/// Transforms a number in packed BCD format to decimal.
///
/// No range check: for a byte with a nibble above 9 the formula still
/// applies and yields a wrong-looking but defined number, matching the
/// peripheral's own behaviour.
pub fn packed_bcd_to_decimal(bcd: u8) -> (dec: u8)
    ensures
        dec == bcd_to_decimal(bcd),
{
    proof {
        assert((bcd >> 4) * 10 + (bcd & 0x0f) <= 165) by (bit_vector);
    }
    (bcd >> 4) * 10 + (bcd & 0x0f)
}

/// Transforms a decimal number to packed BCD format.
///
/// No range check: above 99 the tens nibble overflows and its upper bits
/// are discarded, not flagged. The setters never pass a value above 59.
pub fn decimal_to_packed_bcd(dec: u8) -> (bcd: u8)
    ensures
        bcd == decimal_to_bcd(dec),
{
    ((dec / 10) << 4) | (dec % 10)
}

/// Encoding then decoding recovers every two-digit decimal: for all `dec`
/// up to 99, `bcd_to_decimal(decimal_to_bcd(dec)) == dec`.
pub proof fn lemma_bcd_round_trip(dec: u8)
    requires
        dec <= 99,
    ensures
        bcd_to_decimal(decimal_to_bcd(dec)) == dec,
{
    assert(bcd_to_decimal(decimal_to_bcd(dec)) == dec) by (bit_vector)
        requires
            dec <= 99,
    ;
}

/// A seconds write composed by `seconds_register_update` neither disturbs
/// the clock-halt flag nor loses the seconds: whatever the current register
/// content, the written byte keeps the old halt flag, and decoding the
/// written byte with the halt flag masked recovers the seconds exactly.
pub proof fn lemma_seconds_update(current: u8, seconds: u8)
    requires
        seconds <= 59,
    ensures
        seconds_register_update(current, seconds) & FLAG_CLOCK_HALT == current
            & FLAG_CLOCK_HALT,
        bcd_to_decimal(without_ch_bit(seconds_register_update(current, seconds))) == seconds,
{
    assert(seconds_register_update(current, seconds) & FLAG_CLOCK_HALT == current
        & FLAG_CLOCK_HALT) by (bit_vector)
        requires
            seconds <= 59,
    ;
    assert(bcd_to_decimal(without_ch_bit(seconds_register_update(current, seconds)))
        == seconds) by (bit_vector)
        requires
            seconds <= 59,
    ;
}

/// Writing an in-range hours value and reading the byte back recovers the
/// value, variant included: for every valid hours value `h`,
/// `hours_from_register(hours_to_register(h)) == h`.
pub proof fn lemma_hours_round_trip(hours: Hours)
    requires
        hours_valid(hours),
    ensures
        hours_from_register(hours_to_register(hours)) == hours,
{
    match hours {
        Hours::AM(h) => {
            assert((FLAG_H24_H12 | decimal_to_bcd(h)) & FLAG_H24_H12 != 0
                && (FLAG_H24_H12 | decimal_to_bcd(h)) & FLAG_AM_PM == 0
                && bcd_to_decimal((FLAG_H24_H12 | decimal_to_bcd(h)) & !(FLAG_H24_H12
                | FLAG_AM_PM)) == h) by (bit_vector)
                requires
                    1 <= h && h <= 12,
            ;
        },
        Hours::PM(h) => {
            assert((FLAG_H24_H12 | FLAG_AM_PM | decimal_to_bcd(h)) & FLAG_H24_H12 != 0
                && (FLAG_H24_H12 | FLAG_AM_PM | decimal_to_bcd(h)) & FLAG_AM_PM != 0
                && bcd_to_decimal((FLAG_H24_H12 | FLAG_AM_PM | decimal_to_bcd(h))
                & !(FLAG_H24_H12 | FLAG_AM_PM)) == h) by (bit_vector)
                requires
                    1 <= h && h <= 12,
            ;
        },
        Hours::H24(h) => {
            assert(decimal_to_bcd(h) & FLAG_H24_H12 == 0
                && bcd_to_decimal(decimal_to_bcd(h) & !FLAG_H24_H12) == h) by (bit_vector)
                requires
                    h <= 23,
            ;
        },
    }
}

} // verus!
