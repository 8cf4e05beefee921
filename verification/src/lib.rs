//! Register-level driver for the DS1307 real-time clock.
//!
//! The chip stores each time/date field in one register, most of them as
//! packed binary-coded decimal. The driver converts between decimal values
//! and the register layout, validates input ranges before touching the bus,
//! and preserves the reserved control bits it does not own (the clock-halt
//! bit in the seconds register, and the 12h/24h mode bits in the hours
//! register). Bus access goes through the [`Transport`] trait,
//! whose contract records every transaction issued.

mod codec;
mod driver;
mod sim;
mod transport;

pub use codec::decimal_to_packed_bcd;
pub use codec::is_24h_format;
pub use codec::is_am;
pub use codec::packed_bcd_to_decimal;
pub use codec::remove_ch_bit;
pub use codec::Hours;
pub use driver::Error;
pub use driver::DEVICE_ADDRESS;
pub use driver::DS1307;
pub use driver::REG_DOM;
pub use driver::REG_DOW;
pub use driver::REG_HOURS;
pub use driver::REG_MINUTES;
pub use driver::REG_MONTH;
pub use driver::REG_SECONDS;
pub use driver::REG_YEAR;
pub use sim::BusFault;
pub use sim::RecordingTransport;
pub use transport::Transaction;
pub use transport::Transport;
