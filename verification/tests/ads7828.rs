use hestia_sat::device::ads7828::Ads7828Sensor;
use hestia_sat::device::i2c::I2cAddr;

fn command(addr: u8) -> u8 {
    Ads7828Sensor::ads7828_command(I2cAddr(addr)).0
}

#[test]
fn test_ads7828_command() {
    assert_eq!(0b10000100, command(0));
    assert_eq!(0b11000100, command(1));
    assert_eq!(0b10010100, command(2));
    assert_eq!(0b11010100, command(3));
    assert_eq!(0b10100100, command(4));
    assert_eq!(0b11100100, command(5));
    assert_eq!(0b10110100, command(6));
    assert_eq!(0b11110100, command(7));
}

#[test]
fn test_ads7828_channel_select() {
    assert_eq!(0b000, Ads7828Sensor::ads7828_channel_select(0));
    assert_eq!(0b001, Ads7828Sensor::ads7828_channel_select(2));
    assert_eq!(0b010, Ads7828Sensor::ads7828_channel_select(4));
    assert_eq!(0b011, Ads7828Sensor::ads7828_channel_select(6));
    assert_eq!(0b100, Ads7828Sensor::ads7828_channel_select(1));
    assert_eq!(0b101, Ads7828Sensor::ads7828_channel_select(3));
    assert_eq!(0b110, Ads7828Sensor::ads7828_channel_select(5));
    assert_eq!(0b111, Ads7828Sensor::ads7828_channel_select(7));
}
