//! A bus without hardware: it answers every read as a resting payload at
//! room temperature would, and takes every write without effect.

use vstd::prelude::*;
use crate::device::i2c::{BusRead, BusReply, BusWrite, I2cAddr, I2cByteOrder, I2cReg};
use crate::text::{decimal, decimal_string};
use crate::BusFault;

verus! {

/// The simulated bus of one board.
#[derive(Debug, Copy, Clone, PartialEq, Eq, Structural)]
pub struct StubBus {
    pub id: u8,
}

/// The word that the simulated payload holds in a register, and the byte
/// order in which it sends it.
///
/// The controller reports firmware 2.20, the flags of a healthy board, the
/// heater off with `TH1` as its target and full duty, and the code 2048 plus
/// its own address on every converter channel. The multiplexing converter of
/// the later revisions gives 2048 plus its address on every channel. The
/// four digital sensors give 25 degrees and their address, doubled, in
/// 256ths. Nothing else is on the bus: such a read gives zero.
pub open spec fn stub_word(addr: I2cAddr, reg: I2cReg) -> (I2cByteOrder, u16) {
    if addr.0 == 0x08 {
        if reg.0 == 0x10 {
            (I2cByteOrder::LittleEndian, 220u16)
        } else if reg.0 == 0x11 {
            (I2cByteOrder::LittleEndian, 1u16)
        } else if reg.0 == 0x20 {
            (I2cByteOrder::LittleEndian, 0u16)
        } else if reg.0 == 0x22 {
            (I2cByteOrder::LittleEndian, 0u16)
        } else if reg.0 == 0x23 {
            (I2cByteOrder::LittleEndian, 255u16)
        } else {
            (I2cByteOrder::LittleEndian, (2048 + addr.0) as u16)
        }
    } else if addr.0 == 0x4A {
        (I2cByteOrder::BigEndian, (2048 + addr.0) as u16)
    } else if addr.0 == 0x48 || addr.0 == 0x4F || addr.0 == 0x49 || addr.0 == 0x4B {
        (I2cByteOrder::BigEndian, (6400 + 2 * addr.0) as u16)
    } else {
        (I2cByteOrder::LittleEndian, 0u16)
    }
}

impl StubBus {
    /// The name of the simulated bus: `i2c-stub-` and the bus number.
    pub fn path(&self) -> (p: String)
        ensures
            p@ == "i2c-stub-"@ + decimal(self.id as nat),
    {
        let mut p = String::from_str("i2c-stub-");
        let n = decimal_string(self.id as u64);
        p.append(n.as_str());
        p
    }

    /// The simulated bus is always there.
    pub fn is_present(&self) -> (r: bool)
        ensures
            r,
    {
        true
    }

    /// The reply of the simulated payload to the read of register `reg` of
    /// the device at `addr`. The read never fails.
    pub fn read_bytes(&self, addr: I2cAddr, reg: I2cReg) -> (r: BusReply)
        ensures
            r is Ok,
            stub_word(addr, reg).0.word(r->Ok_0@[0], r->Ok_0@[1]) == stub_word(addr, reg).1,
    {
        let mut data: [u8; 2] = [0; 2];
        if addr.0 == 0x08 {
            // MSP430
            let value: u16 = if reg.0 == 0x10 {
                220  // version 2.2
            } else if reg.0 == 0x11 {
                1  // OK
            } else if reg.0 == 0x20 {
                0  // OFF
            } else if reg.0 == 0x22 {
                0  // TH1
            } else if reg.0 == 0x23 {
                255
            } else {
                2048 + addr.0 as u16
            };
            I2cByteOrder::LittleEndian.write_u16(&mut data, value);
        } else if addr.0 == 0x4A {
            // ADS7828
            I2cByteOrder::BigEndian.write_u16(&mut data, 2048 + addr.0 as u16);
        } else if addr.0 == 0x48 || addr.0 == 0x4F || addr.0 == 0x49 || addr.0 == 0x4B {
            // MAX31725
            let temp: u16 = 6400;
            let frac: u16 = 2 * (addr.0 as u16);
            I2cByteOrder::BigEndian.write_u16(&mut data, temp + frac);
        }
        Ok(data)
    }

    /// Takes a write and discards it. The write never fails.
    pub fn write_bytes(&self, addr: I2cAddr, reg: I2cReg, buf: &[u8; 2]) -> (r: Result<(), BusFault>)
        ensures
            r is Ok,
    {
        Ok(())
    }

    /// Performs a read on the simulated bus.
    pub fn transfer(&self, read: &BusRead) -> (r: BusReply)
        ensures
            r is Ok,
            stub_word(read.addr, read.reg).0.word(r->Ok_0@[0], r->Ok_0@[1]) == stub_word(
                read.addr,
                read.reg,
            ).1,
    {
        self.read_bytes(read.addr, read.reg)
    }

    /// Performs a write on the simulated bus.
    pub fn send(&self, write: &BusWrite) -> (r: Result<(), BusFault>)
        ensures
            r is Ok,
    {
        self.write_bytes(write.addr, write.reg, &write.data)
    }
}

} // verus!
