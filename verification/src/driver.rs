//! Per-field get/set operations over the device handle: each one validates
//! its input range, composes the codec with the register address, and issues
//! a single-register read or read-modify-write sequence on the transport.

use vstd::prelude::*;

use crate::codec::bcd_to_decimal;
use crate::codec::decimal_to_bcd;
use crate::codec::decimal_to_packed_bcd;
use crate::codec::hours_from_register;
use crate::codec::hours_to_register;
use crate::codec::hours_valid;
use crate::codec::is_24h_format;
use crate::codec::is_am;
use crate::codec::packed_bcd_to_decimal;
use crate::codec::remove_ch_bit;
use crate::codec::seconds_register_update;
use crate::codec::without_ch_bit;
use crate::codec::Hours;
use crate::codec::FLAG_AM_PM;
use crate::codec::FLAG_CLOCK_HALT;
use crate::codec::FLAG_H24_H12;
use crate::transport::write_read_transaction;
use crate::transport::write_transaction;
use crate::transport::Transaction;
use crate::transport::Transport;

verus! {

/// The chip's fixed 7-bit bus address, used for every transaction.
pub const DEVICE_ADDRESS: u8 = 0b110_1000;

/// Address of the seconds register (BCD 0-59, clock-halt flag in bit 7).
pub const REG_SECONDS: u8 = 0x00;

/// Address of the minutes register (BCD 0-59).
pub const REG_MINUTES: u8 = 0x01;

/// Address of the hours register (BCD hour with the mode flags).
pub const REG_HOURS: u8 = 0x02;

/// Address of the day-of-week register (raw 1-7).
pub const REG_DOW: u8 = 0x03;

/// Address of the day-of-month register (BCD 1-31).
pub const REG_DOM: u8 = 0x04;

/// Address of the month register (BCD 1-12).
pub const REG_MONTH: u8 = 0x05;

/// Address of the year register (BCD 0-99, counted from 2000).
pub const REG_YEAR: u8 = 0x06;

/// All possible errors in this crate.
#[derive(Debug)]
pub enum Error<E> {
    /// The bus operation failed; carries the transport's own error value.
    I2C(E),
    /// A setter argument fell outside its documented range; detected before
    /// any transaction is issued.
    InvalidInputData,
    /// Reserved for invariant violations the driver itself should never
    /// produce; not reachable from any documented code path.
    InternalError,
}

/// The transaction a getter issues: one write of the register address, then
/// a read of one byte, at the fixed device address.
pub open spec fn register_read(register: u8, value: u8) -> Transaction {
    write_read_transaction(DEVICE_ADDRESS, seq![register], seq![value])
}

/// The transaction a setter issues: one write of the register address and
/// one data byte, at the fixed device address.
pub open spec fn register_write(register: u8, value: u8) -> Transaction {
    write_transaction(DEVICE_ADDRESS, seq![register, value])
}

/// DS1307 driver: exclusively owns one transport and keeps no other state.
#[derive(Debug, Default)]
pub struct DS1307<I2C> {
    /// The concrete bus implementation.
    i2c: I2C,
}

impl<I2C: Transport> DS1307<I2C> {
    /// The transactions this handle has issued on its transport,
    /// oldest first.
    pub closed spec fn history(&self) -> Seq<Transaction> {
        self.i2c.history()
    }

    /// Create a new instance.
    pub fn new(i2c: I2C) -> (rtc: Self)
        ensures
            rtc.history() == i2c.history(),
    {
        DS1307 { i2c }
    }

    /// Destroy driver instance, return the bus instance.
    pub fn destroy(self) -> (i2c: I2C)
        ensures
            i2c.history() == self.history(),
    {
        self.i2c
    }

    /// Reads the seconds (0-59): one read of the seconds register, decoded
    /// after masking the clock-halt flag.
    pub fn get_seconds(&mut self) -> (result: Result<u8, Error<I2C::BusError>>)
        ensures
            match result {
                Ok(seconds) => exists|raw: u8|
                    final(self).history() == old(self).history().push(
                        #[trigger] register_read(REG_SECONDS, raw),
                    ) && seconds == bcd_to_decimal(without_ch_bit(raw)),
                Err(e) => (e is I2C) && final(self).history() == old(self).history(),
            },
    {
        match self.read_register(REG_SECONDS) {
            Ok(data) => Ok(packed_bcd_to_decimal(remove_ch_bit(data))),
            Err(e) => Err(e),
        }
    }

    /// Read the minutes (0-59).
    pub fn get_minutes(&mut self) -> (result: Result<u8, Error<I2C::BusError>>)
        ensures
            match result {
                Ok(minutes) => exists|raw: u8|
                    final(self).history() == old(self).history().push(
                        #[trigger] register_read(REG_MINUTES, raw),
                    ) && minutes == bcd_to_decimal(raw),
                Err(e) => (e is I2C) && final(self).history() == old(self).history(),
            },
    {
        self.read_register_decimal(REG_MINUTES)
    }

    /// Read the hours: the mode flags of the register byte pick the variant,
    /// the remaining bits are decoded as BCD.
    pub fn get_hours(&mut self) -> (result: Result<Hours, Error<I2C::BusError>>)
        ensures
            match result {
                Ok(hours) => exists|raw: u8|
                    final(self).history() == old(self).history().push(
                        #[trigger] register_read(REG_HOURS, raw),
                    ) && hours == hours_from_register(raw),
                Err(e) => (e is I2C) && final(self).history() == old(self).history(),
            },
    {
        match self.read_register(REG_HOURS) {
            Ok(data) => {
                if is_24h_format(data) {
                    Ok(Hours::H24(packed_bcd_to_decimal(data & !FLAG_H24_H12)))
                } else if is_am(data) {
                    Ok(Hours::AM(packed_bcd_to_decimal(data & !(FLAG_H24_H12 | FLAG_AM_PM))))
                } else {
                    Ok(Hours::PM(packed_bcd_to_decimal(data & !(FLAG_H24_H12 | FLAG_AM_PM))))
                }
            },
            Err(e) => Err(e),
        }
    }

    /// Read the day of the week (1-7).
    pub fn get_day_of_week(&mut self) -> (result: Result<u8, Error<I2C::BusError>>)
        ensures
            match result {
                Ok(day_of_week) => exists|raw: u8|
                    final(self).history() == old(self).history().push(
                        #[trigger] register_read(REG_DOW, raw),
                    ) && day_of_week == bcd_to_decimal(raw),
                Err(e) => (e is I2C) && final(self).history() == old(self).history(),
            },
    {
        self.read_register_decimal(REG_DOW)
    }

    /// Read the day of the month (1-31).
    pub fn get_day_of_month(&mut self) -> (result: Result<u8, Error<I2C::BusError>>)
        ensures
            match result {
                Ok(day_of_month) => exists|raw: u8|
                    final(self).history() == old(self).history().push(
                        #[trigger] register_read(REG_DOM, raw),
                    ) && day_of_month == bcd_to_decimal(raw),
                Err(e) => (e is I2C) && final(self).history() == old(self).history(),
            },
    {
        self.read_register_decimal(REG_DOM)
    }

    /// Read the month (1-12).
    pub fn get_month(&mut self) -> (result: Result<u8, Error<I2C::BusError>>)
        ensures
            match result {
                Ok(month) => exists|raw: u8|
                    final(self).history() == old(self).history().push(
                        #[trigger] register_read(REG_MONTH, raw),
                    ) && month == bcd_to_decimal(raw),
                Err(e) => (e is I2C) && final(self).history() == old(self).history(),
            },
    {
        self.read_register_decimal(REG_MONTH)
    }

    /// Read the year (2000-2099): the register stores an offset from 2000.
    pub fn get_year(&mut self) -> (result: Result<u16, Error<I2C::BusError>>)
        ensures
            match result {
                Ok(year) => exists|raw: u8|
                    final(self).history() == old(self).history().push(
                        #[trigger] register_read(REG_YEAR, raw),
                    ) && year == 2000 + bcd_to_decimal(raw),
                Err(e) => (e is I2C) && final(self).history() == old(self).history(),
            },
    {
        match self.read_register_decimal(REG_YEAR) {
            Ok(year) => Ok(2000 + (year as u16)),
            Err(e) => Err(e),
        }
    }

    /// Set the seconds (0-59), preserving the clock-halt flag: the seconds
    /// register is read first, and the write keeps its bit 7 as it was.
    /// Returns an `InvalidInputData` error, without issuing any transaction,
    /// if the seconds are out of range.
    pub fn set_seconds(&mut self, seconds: u8) -> (result: Result<(), Error<I2C::BusError>>)
        ensures
            match result {
                Ok(()) => seconds <= 59 && exists|raw: u8|
                    final(self).history() == old(self).history().push(
                        #[trigger] register_read(REG_SECONDS, raw),
                    ).push(register_write(REG_SECONDS, seconds_register_update(raw, seconds))),
                Err(e) => match e {
                    Error::InvalidInputData => seconds > 59 && final(self).history() == old(
                        self,
                    ).history(),
                    Error::I2C(_) => seconds <= 59 && (final(self).history() == old(self).history()
                        || exists|raw: u8|
                        final(self).history() == old(self).history().push(
                            #[trigger] register_read(REG_SECONDS, raw),
                        )),
                    Error::InternalError => false,
                },
            },
    {
        if seconds > 59 {
            return Err(Error::InvalidInputData);
        }
        // needs to keep the CH bit status so we read it first
        let data = match self.read_register(REG_SECONDS) {
            Ok(data) => data,
            Err(e) => {
                return Err(e);
            },
        };
        self.write_register(REG_SECONDS, data & FLAG_CLOCK_HALT | decimal_to_packed_bcd(seconds))
    }

    /// Set the minutes (0-59).
    /// Returns an `InvalidInputData` error, without issuing any transaction,
    /// if the minutes are out of range.
    pub fn set_minutes(&mut self, minutes: u8) -> (result: Result<(), Error<I2C::BusError>>)
        ensures
            match result {
                Ok(()) => minutes <= 59 && final(self).history() == old(self).history().push(
                    register_write(REG_MINUTES, decimal_to_bcd(minutes)),
                ),
                Err(e) => final(self).history() == old(self).history() && match e {
                    Error::InvalidInputData => minutes > 59,
                    Error::I2C(_) => minutes <= 59,
                    Error::InternalError => false,
                },
            },
    {
        if minutes > 59 {
            return Err(Error::InvalidInputData);
        }
        self.write_register_decimal(REG_MINUTES, minutes)
    }

    /// Set the hours.
    /// Changes the operating mode to 12h/24h depending on the variant.
    /// Returns an `InvalidInputData` error, without issuing any transaction,
    /// if the hours are out of range for their format.
    pub fn set_hours(&mut self, hours: Hours) -> (result: Result<(), Error<I2C::BusError>>)
        ensures
            match result {
                Ok(()) => hours_valid(hours) && final(self).history() == old(self).history().push(
                    register_write(REG_HOURS, hours_to_register(hours)),
                ),
                Err(e) => final(self).history() == old(self).history() && match e {
                    Error::InvalidInputData => !hours_valid(hours),
                    Error::I2C(_) => hours_valid(hours),
                    Error::InternalError => false,
                },
            },
    {
        match hours {
            Hours::H24(h) => {
                if h > 23 {
                    Err(Error::InvalidInputData)
                } else {
                    self.write_register_decimal(REG_HOURS, h)
                }
            },
            Hours::AM(h) => {
                if h < 1 || h > 12 {
                    Err(Error::InvalidInputData)
                } else {
                    self.write_register(REG_HOURS, FLAG_H24_H12 | decimal_to_packed_bcd(h))
                }
            },
            Hours::PM(h) => {
                if h < 1 || h > 12 {
                    Err(Error::InvalidInputData)
                } else {
                    self.write_register(
                        REG_HOURS,
                        FLAG_H24_H12 | FLAG_AM_PM | decimal_to_packed_bcd(h),
                    )
                }
            },
        }
    }

    /// Set the day of week (1-7). The register holds the raw value, not BCD.
    /// Returns an `InvalidInputData` error, without issuing any transaction,
    /// if the day is out of range.
    pub fn set_day_of_week(&mut self, day_of_week: u8) -> (result: Result<
        (),
        Error<I2C::BusError>,
    >)
        ensures
            match result {
                Ok(()) => 1 <= day_of_week <= 7 && final(self).history() == old(
                    self,
                ).history().push(register_write(REG_DOW, day_of_week)),
                Err(e) => final(self).history() == old(self).history() && match e {
                    Error::InvalidInputData => day_of_week < 1 || day_of_week > 7,
                    Error::I2C(_) => 1 <= day_of_week <= 7,
                    Error::InternalError => false,
                },
            },
    {
        if day_of_week < 1 || day_of_week > 7 {
            return Err(Error::InvalidInputData);
        }
        self.write_register(REG_DOW, day_of_week)
    }

    /// Set the day of month (1-31).
    /// Returns an `InvalidInputData` error, without issuing any transaction,
    /// if the day is out of range.
    pub fn set_day_of_month(&mut self, day_of_month: u8) -> (result: Result<
        (),
        Error<I2C::BusError>,
    >)
        ensures
            match result {
                Ok(()) => 1 <= day_of_month <= 31 && final(self).history() == old(
                    self,
                ).history().push(register_write(REG_DOM, decimal_to_bcd(day_of_month))),
                Err(e) => final(self).history() == old(self).history() && match e {
                    Error::InvalidInputData => day_of_month < 1 || day_of_month > 31,
                    Error::I2C(_) => 1 <= day_of_month <= 31,
                    Error::InternalError => false,
                },
            },
    {
        if day_of_month < 1 || day_of_month > 31 {
            return Err(Error::InvalidInputData);
        }
        self.write_register_decimal(REG_DOM, day_of_month)
    }

    /// Set the month (1-12).
    /// Returns an `InvalidInputData` error, without issuing any transaction,
    /// if the month is out of range.
    pub fn set_month(&mut self, month: u8) -> (result: Result<(), Error<I2C::BusError>>)
        ensures
            match result {
                Ok(()) => 1 <= month <= 12 && final(self).history() == old(self).history().push(
                    register_write(REG_MONTH, decimal_to_bcd(month)),
                ),
                Err(e) => final(self).history() == old(self).history() && match e {
                    Error::InvalidInputData => month < 1 || month > 12,
                    Error::I2C(_) => 1 <= month <= 12,
                    Error::InternalError => false,
                },
            },
    {
        if month < 1 || month > 12 {
            return Err(Error::InvalidInputData);
        }
        self.write_register_decimal(REG_MONTH, month)
    }

    /// Set the year (2000-2099). The register stores the offset from 2000.
    /// Returns an `InvalidInputData` error, without issuing any transaction,
    /// if the year is out of range.
    pub fn set_year(&mut self, year: u16) -> (result: Result<(), Error<I2C::BusError>>)
        ensures
            match result {
                Ok(()) => 2000 <= year <= 2099 && final(self).history() == old(
                    self,
                ).history().push(
                    register_write(REG_YEAR, decimal_to_bcd((year - 2000) as u8)),
                ),
                Err(e) => final(self).history() == old(self).history() && match e {
                    Error::InvalidInputData => year < 2000 || year > 2099,
                    Error::I2C(_) => 2000 <= year <= 2099,
                    Error::InternalError => false,
                },
            },
    {
        if year < 2000 || year > 2099 {
            return Err(Error::InvalidInputData);
        }
        self.write_register_decimal(REG_YEAR, (year - 2000) as u8)
    }

    /// Encodes the decimal value as packed BCD and writes it to the
    /// register.
    fn write_register_decimal(&mut self, register: u8, decimal_number: u8) -> (result: Result<
        (),
        Error<I2C::BusError>,
    >)
        ensures
            match result {
                Ok(()) => final(self).history() == old(self).history().push(
                    register_write(register, decimal_to_bcd(decimal_number)),
                ),
                Err(e) => (e is I2C) && final(self).history() == old(self).history(),
            },
    {
        self.write_register(register, decimal_to_packed_bcd(decimal_number))
    }

    /// Issues one write transaction with the register address and one data
    /// byte as its payload.
    fn write_register(&mut self, register: u8, data: u8) -> (result: Result<
        (),
        Error<I2C::BusError>,
    >)
        ensures
            match result {
                Ok(()) => final(self).history() == old(self).history().push(
                    register_write(register, data),
                ),
                Err(e) => (e is I2C) && final(self).history() == old(self).history(),
            },
    {
        let mut payload: Vec<u8> = Vec::new();
        payload.push(register);
        payload.push(data);
        proof {
            assert(payload@ =~= seq![register, data]);
        }
        match self.i2c.write(DEVICE_ADDRESS, payload.as_slice()) {
            Ok(()) => Ok(()),
            Err(e) => Err(Error::I2C(e)),
        }
    }

    /// Reads the register and decodes the byte as packed BCD.
    fn read_register_decimal(&mut self, register: u8) -> (result: Result<
        u8,
        Error<I2C::BusError>,
    >)
        ensures
            match result {
                Ok(value) => exists|raw: u8|
                    final(self).history() == old(self).history().push(
                        #[trigger] register_read(register, raw),
                    ) && value == bcd_to_decimal(raw),
                Err(e) => (e is I2C) && final(self).history() == old(self).history(),
            },
    {
        match self.read_register(register) {
            Ok(data) => Ok(packed_bcd_to_decimal(data)),
            Err(e) => Err(e),
        }
    }

    /// Issues one write-then-read transaction: the register address as a
    /// single-byte payload, then one byte read back.
    fn read_register(&mut self, register: u8) -> (result: Result<u8, Error<I2C::BusError>>)
        ensures
            match result {
                Ok(value) => final(self).history() == old(self).history().push(
                    register_read(register, value),
                ),
                Err(e) => (e is I2C) && final(self).history() == old(self).history(),
            },
    {
        let mut cmd: Vec<u8> = Vec::new();
        cmd.push(register);
        proof {
            assert(cmd@ =~= seq![register]);
        }
        match self.i2c.write_then_read(DEVICE_ADDRESS, cmd.as_slice(), 1) {
            Ok(data) => {
                let value = data[0];
                proof {
                    assert(data@ =~= seq![value]);
                }
                Ok(value)
            },
            Err(e) => Err(Error::I2C(e)),
        }
    }
}

} // verus!
