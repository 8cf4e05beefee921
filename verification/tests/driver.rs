use ds1307::Error;
use ds1307::Hours;
use ds1307::RecordingTransport;
use ds1307::DEVICE_ADDRESS;
use ds1307::DS1307;
use ds1307::REG_DOM;
use ds1307::REG_DOW;
use ds1307::REG_HOURS;
use ds1307::REG_MINUTES;
use ds1307::REG_MONTH;
use ds1307::REG_SECONDS;
use ds1307::REG_YEAR;

fn setup(read_data: &[u8]) -> DS1307<RecordingTransport> {
    let mut dev = RecordingTransport::new();
    dev.set_read_data(read_data.to_vec());
    DS1307::new(dev)
}

fn check_sent_data(rtc: DS1307<RecordingTransport>, data: &[u8]) {
    let dev = rtc.destroy();
    assert_eq!(dev.get_last_address(), Some(DEVICE_ADDRESS));
    assert_eq!(dev.get_write_data().as_slice(), data);
}

#[test]
fn sends_correct_data_for_seconds_read() {
    let mut rtc = setup(&[0]);
    rtc.get_seconds().unwrap();
    check_sent_data(rtc, &[0]);
}

#[test]
fn can_read_seconds() {
    let mut rtc = setup(&[0b0101_1001]);
    assert_eq!(59, rtc.get_seconds().unwrap());
}

#[test]
fn ch_bit_is_ignored() {
    let mut rtc = setup(&[0b1101_1001]);
    assert_eq!(59, rtc.get_seconds().unwrap());
}

#[test]
fn wrong_seconds_returns_error() {
    let mut rtc = setup(&[0]);
    match rtc.set_seconds(60) {
        Err(Error::InvalidInputData) => (),
        _ => panic!(),
    }
}

#[test]
fn can_write_seconds() {
    let mut rtc = setup(&[0]);
    rtc.set_seconds(59).unwrap();
    check_sent_data(rtc, &[REG_SECONDS, 0b0101_1001]);
}

#[test]
fn ch_bit_is_kept_when_writing_seconds() {
    let mut rtc = setup(&[0b1000_0000]);
    rtc.set_seconds(59).unwrap();
    check_sent_data(rtc, &[REG_SECONDS, 0b1101_1001]);
}

#[test]
fn can_read_minutes() {
    let mut rtc = setup(&[0b0101_1001]);
    assert_eq!(59, rtc.get_minutes().unwrap());
    check_sent_data(rtc, &[REG_MINUTES]);
}

#[test]
fn wrong_minutes_returns_error() {
    let mut rtc = setup(&[0]);
    match rtc.set_minutes(60) {
        Err(Error::InvalidInputData) => (),
        _ => panic!(),
    }
}

#[test]
fn can_write_minutes() {
    let mut rtc = setup(&[0]);
    rtc.set_minutes(59).unwrap();
    check_sent_data(rtc, &[REG_MINUTES, 0b0101_1001]);
}

#[test]
fn can_read_24h_hours() {
    let mut rtc = setup(&[0b0010_0011]);
    match rtc.get_hours().unwrap() {
        Hours::H24(h) => assert_eq!(23, h),
        _ => panic!(),
    }
    check_sent_data(rtc, &[REG_HOURS]);
}

#[test]
fn wrong_24h_hours_returns_error() {
    let mut rtc = setup(&[0]);
    match rtc.set_hours(Hours::H24(24)) {
        Err(Error::InvalidInputData) => (),
        _ => panic!(),
    }
}

#[test]
fn can_write_24h_hours() {
    let mut rtc = setup(&[0]);
    rtc.set_hours(Hours::H24(23)).unwrap();
    check_sent_data(rtc, &[REG_HOURS, 0b0010_0011]);
}

#[test]
fn can_read_12h_am_hours() {
    let mut rtc = setup(&[0b0101_0010]);
    match rtc.get_hours().unwrap() {
        Hours::AM(h) => assert_eq!(12, h),
        _ => panic!(),
    }
    check_sent_data(rtc, &[REG_HOURS]);
}

#[test]
fn too_small_12h_am_hours_returns_error() {
    let mut rtc = setup(&[0]);
    match rtc.set_hours(Hours::AM(0)) {
        Err(Error::InvalidInputData) => (),
        _ => panic!(),
    }
}

#[test]
fn too_big_12h_am_hours_returns_error() {
    let mut rtc = setup(&[0]);
    match rtc.set_hours(Hours::AM(13)) {
        Err(Error::InvalidInputData) => (),
        _ => panic!(),
    }
}

#[test]
fn can_write_12h_am_hours() {
    let mut rtc = setup(&[0]);
    rtc.set_hours(Hours::AM(12)).unwrap();
    check_sent_data(rtc, &[REG_HOURS, 0b0101_0010]);
}

#[test]
fn can_read_12h_pm_hours() {
    let mut rtc = setup(&[0b0111_0010]);
    match rtc.get_hours().unwrap() {
        Hours::PM(h) => assert_eq!(12, h),
        _ => panic!(),
    }
    check_sent_data(rtc, &[REG_HOURS]);
}

#[test]
fn too_small_12h_pm_hours_returns_error() {
    let mut rtc = setup(&[0]);
    match rtc.set_hours(Hours::PM(0)) {
        Err(Error::InvalidInputData) => (),
        _ => panic!(),
    }
}

#[test]
fn too_big_12h_pm_hours_returns_error() {
    let mut rtc = setup(&[0]);
    match rtc.set_hours(Hours::PM(13)) {
        Err(Error::InvalidInputData) => (),
        _ => panic!(),
    }
}

#[test]
fn can_write_12h_pm_hours() {
    let mut rtc = setup(&[0]);
    rtc.set_hours(Hours::PM(12)).unwrap();
    check_sent_data(rtc, &[REG_HOURS, 0b0111_0010]);
}

#[test]
fn can_read_day_of_week() {
    let mut rtc = setup(&[7]);
    assert_eq!(7, rtc.get_day_of_week().unwrap());
    check_sent_data(rtc, &[REG_DOW]);
}

#[test]
fn too_small_day_of_week_returns_error() {
    let mut rtc = setup(&[0]);
    match rtc.set_day_of_week(0) {
        Err(Error::InvalidInputData) => (),
        _ => panic!(),
    }
}

#[test]
fn too_big_day_of_week_returns_error() {
    let mut rtc = setup(&[0]);
    match rtc.set_day_of_week(8) {
        Err(Error::InvalidInputData) => (),
        _ => panic!(),
    }
}

#[test]
fn can_write_day_of_week() {
    let mut rtc = setup(&[0]);
    rtc.set_day_of_week(7).unwrap();
    check_sent_data(rtc, &[REG_DOW, 0b0000_0111]);
}

#[test]
fn can_read_day_of_month() {
    let mut rtc = setup(&[0b0011_0001]);
    assert_eq!(31, rtc.get_day_of_month().unwrap());
    check_sent_data(rtc, &[REG_DOM]);
}

#[test]
fn too_small_day_of_month_returns_error() {
    let mut rtc = setup(&[0]);
    match rtc.set_day_of_month(0) {
        Err(Error::InvalidInputData) => (),
        _ => panic!(),
    }
}

#[test]
fn too_big_day_of_month_returns_error() {
    let mut rtc = setup(&[0]);
    match rtc.set_day_of_month(32) {
        Err(Error::InvalidInputData) => (),
        _ => panic!(),
    }
}

#[test]
fn can_write_day_of_month() {
    let mut rtc = setup(&[0]);
    rtc.set_day_of_month(31).unwrap();
    check_sent_data(rtc, &[REG_DOM, 0b0011_0001]);
}

#[test]
fn can_read_month() {
    let mut rtc = setup(&[0b0001_0010]);
    assert_eq!(12, rtc.get_month().unwrap());
    check_sent_data(rtc, &[REG_MONTH]);
}

#[test]
fn too_small_month_returns_error() {
    let mut rtc = setup(&[0]);
    match rtc.set_month(0) {
        Err(Error::InvalidInputData) => (),
        _ => panic!(),
    }
}

#[test]
fn too_big_month_returns_error() {
    let mut rtc = setup(&[0]);
    match rtc.set_month(13) {
        Err(Error::InvalidInputData) => (),
        _ => panic!(),
    }
}

#[test]
fn can_write_month() {
    let mut rtc = setup(&[0]);
    rtc.set_month(12).unwrap();
    check_sent_data(rtc, &[REG_MONTH, 0b0001_0010]);
}

#[test]
fn can_read_year() {
    let mut rtc = setup(&[0b1001_1001]);
    assert_eq!(2099, rtc.get_year().unwrap());
    check_sent_data(rtc, &[REG_YEAR]);
}

#[test]
fn too_small_year_returns_error() {
    let mut rtc = setup(&[0]);
    match rtc.set_year(1999) {
        Err(Error::InvalidInputData) => (),
        _ => panic!(),
    }
}

#[test]
fn too_big_year_returns_error() {
    let mut rtc = setup(&[0]);
    match rtc.set_year(2100) {
        Err(Error::InvalidInputData) => (),
        _ => panic!(),
    }
}

#[test]
fn can_write_year() {
    let mut rtc = setup(&[0]);
    rtc.set_year(2099).unwrap();
    check_sent_data(rtc, &[REG_YEAR, 0b1001_1001]);
}
