pub mod i2c;
pub mod ads7828;
pub mod max31725;
pub mod msp430;
pub mod stub_i2c;
