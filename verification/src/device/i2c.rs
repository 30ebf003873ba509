//! Two-byte register transfers on the serial bus: who is addressed, in which
//! byte order a word travels, and what a reply means.

use vstd::prelude::*;
use byteorder::ByteOrder;
use crate::text::{decimal, decimal_string};
use crate::{BusFault, ReadError, ReadResult};

verus! {

/// Seven-bit address of a device on the bus.
#[derive(Debug, Copy, Clone, PartialEq, Eq, Structural)]
pub struct I2cAddr(pub u8);

/// Register of a device.
#[derive(Debug, Copy, Clone, PartialEq, Eq, Structural)]
pub struct I2cReg(pub u8);

impl From<I2cAddr> for I2cReg {
    fn from(addr: I2cAddr) -> (r: I2cReg) {
        I2cReg(addr.0)
    }
}

impl vstd::std_specs::convert::FromSpecImpl<I2cAddr> for I2cReg {
    open spec fn obeys_from_spec() -> bool {
        true
    }

    open spec fn from_spec(addr: I2cAddr) -> I2cReg {
        I2cReg(addr.0)
    }
}

/// One serial bus of the host, named by its number.
#[derive(Debug, Copy, Clone, PartialEq, Eq, Structural)]
pub struct I2cBus {
    pub id: u8,
}

impl From<u8> for I2cBus {
    fn from(id: u8) -> (r: I2cBus) {
        I2cBus { id }
    }
}

impl vstd::std_specs::convert::FromSpecImpl<u8> for I2cBus {
    open spec fn obeys_from_spec() -> bool {
        true
    }

    open spec fn from_spec(id: u8) -> I2cBus {
        I2cBus { id }
    }
}

/// `std::path::Path::exists` on `path`: whether the file system holds an
/// entry there right now. Nothing is claimed of the answer.
#[verifier::external_body]
fn path_exists(path: &str) -> bool {
    std::path::Path::new(path).exists()
}

impl I2cBus {
    /// The device node of the bus.
    pub open spec fn spec_path(self) -> Seq<char> {
        "/dev/i2c-"@ + decimal(self.id as nat)
    }

    /// The device node of the bus: `/dev/i2c-` and the bus number.
    pub fn path(&self) -> (p: String)
        ensures
            p@ == self.spec_path(),
    {
        let mut p = String::from_str("/dev/i2c-");
        let n = decimal_string(self.id as u64);
        p.append(n.as_str());
        p
    }

    /// Whether the device node of the bus is there at this moment.
    pub fn is_present(&self) -> bool {
        let p = self.path();
        path_exists(p.as_str())
    }
}

/// A read of one two-byte register, for the caller to perform.
#[derive(Debug, Copy, Clone, PartialEq, Eq, Structural)]
pub struct BusRead {
    pub bus: I2cBus,
    pub addr: I2cAddr,
    pub reg: I2cReg,
}

/// A write of one two-byte register, for the caller to perform.
#[derive(Debug, Copy, Clone, PartialEq, Eq)]
pub struct BusWrite {
    pub bus: I2cBus,
    pub addr: I2cAddr,
    pub reg: I2cReg,
    /// The bytes in the order in which they travel.
    pub data: [u8; 2],
}

/// How a read ended: the two bytes in the order in which they came, or the
/// fault.
pub type BusReply = Result<[u8; 2], BusFault>;

/// The word that two bytes hold, least significant byte first.
pub open spec fn le_word(b0: u8, b1: u8) -> int {
    b0 as int + 256 * (b1 as int)
}

/// The word that two bytes hold, most significant byte first.
pub open spec fn be_word(b0: u8, b1: u8) -> int {
    256 * (b0 as int) + b1 as int
}

/// `byteorder::LittleEndian::read_u16`: the first two bytes of `buf` as a
/// word, least significant byte first. It panics on a shorter buffer.
#[verifier::external_body]
fn le_read_u16(buf: &[u8]) -> (v: u16)
    requires
        buf@.len() >= 2,
    ensures
        v as int == le_word(buf@[0], buf@[1]),
{
    byteorder::LittleEndian::read_u16(buf)
}

/// `byteorder::BigEndian::read_u16`: the first two bytes of `buf` as a word,
/// most significant byte first. It panics on a shorter buffer.
#[verifier::external_body]
fn be_read_u16(buf: &[u8]) -> (v: u16)
    requires
        buf@.len() >= 2,
    ensures
        v as int == be_word(buf@[0], buf@[1]),
{
    byteorder::BigEndian::read_u16(buf)
}

/// `byteorder::LittleEndian::write_u16`: puts `n` into the first two bytes of
/// `buf`, least significant byte first, and leaves the rest. It panics on a
/// shorter buffer.
#[verifier::external_body]
fn le_write_u16(buf: &mut [u8], n: u16)
    requires
        old(buf)@.len() >= 2,
    ensures
        final(buf)@.len() == old(buf)@.len(),
        le_word(final(buf)@[0], final(buf)@[1]) == n as int,
        forall|i: int| 2 <= i < old(buf)@.len() ==> final(buf)@[i] == old(buf)@[i],
{
    byteorder::LittleEndian::write_u16(buf, n)
}

/// `byteorder::BigEndian::write_u16`: puts `n` into the first two bytes of
/// `buf`, most significant byte first, and leaves the rest. It panics on a
/// shorter buffer.
#[verifier::external_body]
fn be_write_u16(buf: &mut [u8], n: u16)
    requires
        old(buf)@.len() >= 2,
    ensures
        final(buf)@.len() == old(buf)@.len(),
        be_word(final(buf)@[0], final(buf)@[1]) == n as int,
        forall|i: int| 2 <= i < old(buf)@.len() ==> final(buf)@[i] == old(buf)@[i],
{
    byteorder::BigEndian::write_u16(buf, n)
}

/// The order in which a device sends and takes the two bytes of a word.
#[derive(Debug, Copy, Clone, PartialEq, Eq, Structural)]
pub enum I2cByteOrder {
    LittleEndian,
    BigEndian,
}

impl I2cByteOrder {
    /// The word that the bytes `b0`, `b1` hold in this order.
    pub open spec fn word(self, b0: u8, b1: u8) -> int {
        match self {
            I2cByteOrder::LittleEndian => le_word(b0, b1),
            I2cByteOrder::BigEndian => be_word(b0, b1),
        }
    }

    /// Reads an unsigned 16-bit integer from the first two bytes of `buf`.
    pub fn read_u16(&self, buf: &[u8]) -> (v: u16)
        requires
            buf@.len() >= 2,
        ensures
            v as int == self.word(buf@[0], buf@[1]),
    {
        match self {
            I2cByteOrder::LittleEndian => le_read_u16(buf),
            I2cByteOrder::BigEndian => be_read_u16(buf),
        }
    }

    /// Writes an unsigned 16-bit integer into the first two bytes of `buf`.
    pub fn write_u16(&self, buf: &mut [u8], data: u16)
        requires
            old(buf)@.len() >= 2,
        ensures
            final(buf)@.len() == old(buf)@.len(),
            self.word(final(buf)@[0], final(buf)@[1]) == data as int,
            forall|i: int| 2 <= i < old(buf)@.len() ==> final(buf)@[i] == old(buf)@[i],
    {
        match self {
            I2cByteOrder::LittleEndian => le_write_u16(buf, data),
            I2cByteOrder::BigEndian => be_write_u16(buf, data),
        }
    }
}

/// A device on the bus that holds 16-bit registers.
#[derive(Debug, Copy, Clone, PartialEq, Eq, Structural)]
pub struct I2cDevice {
    pub bus: I2cBus,
    pub addr: I2cAddr,
    pub byte_order: I2cByteOrder,
}

impl I2cDevice {
    /// A device at `addr` on `bus` whose words travel least significant byte
    /// first.
    pub fn little_endian(bus: I2cBus, addr: I2cAddr) -> (d: Self)
        ensures
            d == (I2cDevice { bus, addr, byte_order: I2cByteOrder::LittleEndian }),
    {
        I2cDevice { bus, byte_order: I2cByteOrder::LittleEndian, addr }
    }

    /// A device at `addr` on `bus` whose words travel most significant byte
    /// first.
    pub fn big_endian(bus: I2cBus, addr: I2cAddr) -> (d: Self)
        ensures
            d == (I2cDevice { bus, addr, byte_order: I2cByteOrder::BigEndian }),
    {
        I2cDevice { bus, byte_order: I2cByteOrder::BigEndian, addr }
    }

    /// The read of register `reg` of this device.
    pub fn read_request(&self, reg: I2cReg) -> (r: BusRead)
        ensures
            r == (BusRead { bus: self.bus, addr: self.addr, reg }),
    {
        BusRead { bus: self.bus, addr: self.addr, reg }
    }

    /// What a reply to a read of this device means.
    pub open spec fn spec_read_u16(self, reply: BusReply) -> Result<u16, BusFault> {
        match reply {
            Ok(data) => Ok(self.byte_order.word(data@[0], data@[1]) as u16),
            Err(fault) => Err(fault),
        }
    }

    /// The word that a reply to a read of this device holds, or the fault of
    /// the transfer, unchanged.
    pub fn read_u16(&self, reply: &BusReply) -> (r: Result<u16, BusFault>)
        ensures
            r == self.spec_read_u16(*reply),
    {
        match reply {
            Ok(data) => Ok(self.byte_order.read_u16(data.as_slice())),
            Err(fault) => Err(*fault),
        }
    }

    /// The write that puts `data` into register `reg` of this device.
    pub fn write_u16(&self, reg: I2cReg, data: u16) -> (w: BusWrite)
        ensures
            w.bus == self.bus,
            w.addr == self.addr,
            w.reg == reg,
            self.byte_order.word(w.data@[0], w.data@[1]) == data as int,
    {
        let mut buf: [u8; 2] = [0; 2];
        self.byte_order.write_u16(&mut buf, data);
        BusWrite { bus: self.bus, addr: self.addr, reg, data: buf }
    }
}

/// A named device: the register transfers of an [`I2cDevice`], with read
/// faults reported as [`ReadError`]s.
#[derive(Debug, Clone)]
pub struct LoggingI2cDevice {
    pub name: String,
    pub device: I2cDevice,
}

impl LoggingI2cDevice {
    pub fn new(name: String, device: I2cDevice) -> (d: LoggingI2cDevice)
        ensures
            d.name == name,
            d.device == device,
    {
        LoggingI2cDevice { name, device }
    }

    /// The name under which the device is reported: `i2c-`, the bus number,
    /// a slash and the device's own name.
    pub fn label(&self) -> (s: String)
        ensures
            s@ == "i2c-"@ + decimal(self.device.bus.id as nat) + "/"@ + self.name@,
    {
        let mut s = String::from_str("i2c-");
        let n = decimal_string(self.device.bus.id as u64);
        s.append(n.as_str());
        s.append("/");
        s.append(self.name.as_str());
        s
    }

    /// The read of register `reg` of this device.
    pub fn read_request(&self, reg: I2cReg) -> (r: BusRead)
        ensures
            r == (BusRead { bus: self.device.bus, addr: self.device.addr, reg }),
    {
        self.device.read_request(reg)
    }

    /// What a reply to a read of this device means.
    pub open spec fn spec_read_register(self, reply: BusReply) -> ReadResult<u16> {
        match self.device.spec_read_u16(reply) {
            Ok(value) => Ok(value),
            Err(fault) => Err(ReadError::I2CError(fault)),
        }
    }

    /// The value of a register from the reply to its read. A failed transfer
    /// comes back as a bus error that holds the fault.
    pub fn read_register(&self, reply: &BusReply) -> (r: ReadResult<u16>)
        ensures
            r == self.spec_read_register(*reply),
    {
        match self.device.read_u16(reply) {
            Ok(result) => Ok(result),
            Err(fault) => Err(ReadError::I2CError(fault)),
        }
    }

    /// The write that sets register `reg` of this device to `data`. Whether it
    /// took effect only a later read shows.
    pub fn write_register(&self, reg: I2cReg, data: u16) -> (w: BusWrite)
        ensures
            w.bus == self.device.bus,
            w.addr == self.device.addr,
            w.reg == reg,
            self.device.byte_order.word(w.data@[0], w.data@[1]) == data as int,
    {
        self.device.write_u16(reg, data)
    }
}

/// The word of a reply, most significant byte first, or the fault of the
/// transfer.
pub fn i2c_read_u16_be(reply: &BusReply) -> (r: Result<u16, BusFault>)
    ensures
        r == match *reply {
            Ok(data) => Ok::<u16, BusFault>(be_word(data@[0], data@[1]) as u16),
            Err(fault) => Err::<u16, BusFault>(fault),
        },
{
    match reply {
        Ok(data) => Ok(I2cByteOrder::BigEndian.read_u16(data.as_slice())),
        Err(fault) => Err(*fault),
    }
}

/// The word of a reply, least significant byte first, or the fault of the
/// transfer.
pub fn i2c_read_u16_le(reply: &BusReply) -> (r: Result<u16, BusFault>)
    ensures
        r == match *reply {
            Ok(data) => Ok::<u16, BusFault>(le_word(data@[0], data@[1]) as u16),
            Err(fault) => Err::<u16, BusFault>(fault),
        },
{
    match reply {
        Ok(data) => Ok(I2cByteOrder::LittleEndian.read_u16(data.as_slice())),
        Err(fault) => Err(*fault),
    }
}

} // verus!
