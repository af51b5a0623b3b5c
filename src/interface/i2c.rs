//! The sensor on an I2C bus.
use vstd::prelude::*;

use embedded_hal::i2c::Error as _;
use embedded_hal::i2c::{ErrorKind, I2c};

use crate::registers::{ComponentAddress, Register};
use crate::Lsm9ds1Error;

verus! {

/// I2C address of the Accelerometer/Gyroscope component.
#[derive(Clone, Copy, Debug, PartialEq, Eq, Structural)]
pub enum AddressAg {
    /// Address is 0x6a.
    _0x6a,
    /// Address is 0x6b.
    _0x6b,
}

/// I2c address of the Magnetometer component.
#[derive(Clone, Copy, Debug, PartialEq, Eq, Structural)]
pub enum AddressM {
    /// Address is 0x1c.
    _0x1c,
    /// Address is 0x1e.
    _0x1e,
}

impl AddressAg {
    pub open spec fn spec_addr(self) -> u8 {
        match self {
            AddressAg::_0x6a => 0x6a,
            AddressAg::_0x6b => 0x6b,
        }
    }
}

impl AddressM {
    pub open spec fn spec_addr(self) -> u8 {
        match self {
            AddressM::_0x1c => 0x1c,
            AddressM::_0x1e => 0x1e,
        }
    }
}

trait Address {
    fn addr(&self) -> u8;
}

impl Address for AddressAg {
    fn addr(&self) -> (r: u8)
        ensures
            r == self.spec_addr(),
    {
        match self {
            Self::_0x6a => 0x6a,
            Self::_0x6b => 0x6b,
        }
    }
}

impl Address for AddressM {
    fn addr(&self) -> (r: u8)
        ensures
            r == self.spec_addr(),
    {
        match self {
            Self::_0x1c => 0x1c,
            Self::_0x1e => 0x1e,
        }
    }
}

/// Configuration for an I2C interface.
pub struct Config {
    /// Address of the Accelerometer/Gyroscope component.
    pub addr_ag: AddressAg,
    /// Address of the Magnetometer component.
    pub addr_m: AddressM,
}

impl Config {
    /// The bus address of the component that owns `reg`, and the register's address there.
    pub open spec fn spec_target(self, reg: Register) -> (u8, u8) {
        match reg.spec_addr() {
            ComponentAddress::Ag(a) => (self.addr_ag.spec_addr(), a),
            ComponentAddress::M(a) => (self.addr_m.spec_addr(), a),
        }
    }

    /// Resolve a register to the bus address of its component and its address there.
    pub fn target(&self, reg: Register) -> (r: (u8, u8))
        ensures
            r == self.spec_target(reg),
    {
        match reg.addr() {
            ComponentAddress::Ag(a) => (self.addr_ag.addr(), a),
            ComponentAddress::M(a) => (self.addr_m.addr(), a),
        }
    }
}

impl Config {
    /// The frame that writes `value` to `reg`: the bus address of the register's component,
    /// and the bytes sent there, the register's address then the value.
    pub fn write_frame(&self, reg: Register, value: u8) -> (r: (u8, [u8; 2]))
        ensures
            r.0 == self.spec_target(reg).0,
            r.1@ == seq![self.spec_target(reg).1, value],
    {
        let (device_addr, reg_addr) = self.target(reg);
        let bytes: [u8; 2] = [reg_addr, value];
        assert(bytes@ =~= seq![reg_addr, value]);
        (device_addr, bytes)
    }

    /// The frame that starts a read at `reg`: the bus address of the register's component,
    /// and the one byte sent there before reading, the register's address.
    pub fn read_frame(&self, reg: Register) -> (r: (u8, [u8; 1]))
        ensures
            r.0 == self.spec_target(reg).0,
            r.1@ == seq![self.spec_target(reg).1],
    {
        let (device_addr, reg_addr) = self.target(reg);
        let bytes: [u8; 1] = [reg_addr];
        assert(bytes@ =~= seq![reg_addr]);
        (device_addr, bytes)
    }
}

impl Default for Config {
    fn default() -> (r: Self)
        ensures
            r.addr_ag == AddressAg::_0x6b,
            r.addr_m == AddressM::_0x1e,
    {
        Self { addr_ag: AddressAg::_0x6b, addr_m: AddressM::_0x1e }
    }
}

/// embedded-hal's classification of I2C errors.
#[verifier::external_type_specification]
#[verifier::external_body]
pub struct ExErrorKind(embedded_hal::i2c::ErrorKind);

/// Relies on embedded_hal's I2c::write, which sends `bytes` to the device at `address`,
/// and on i2c::Error::kind to classify a failure.
#[verifier::external_body]
fn bus_write<I2C: I2c>(bus: &mut I2C, address: u8, bytes: &[u8]) -> (r: Result<(), ErrorKind>) {
    match bus.write(address, bytes) {
        Ok(()) => Ok(()),
        Err(e) => Err(e.kind()),
    }
}

/// Relies on embedded_hal's I2c::write_read, which sends `bytes` to the device at `address`
/// and then fills `buffer` from it, and on i2c::Error::kind to classify a failure.
#[verifier::external_body]
fn bus_write_read<I2C: I2c>(bus: &mut I2C, address: u8, bytes: &[u8], buffer: &mut [u8]) -> (r:
    Result<(), ErrorKind>)
    ensures
        final(buffer)@.len() == old(buffer)@.len(),
{
    match bus.write_read(address, bytes, buffer) {
        Ok(()) => Ok(()),
        Err(e) => Err(e.kind()),
    }
}

/// I2C Interface to sensor.
pub struct I2cInterface<I2C> {
    /// I2C bus.
    bus: I2C,
    /// Interface Configuration.
    config: Config,
}

impl<I2C: I2c> I2cInterface<I2C> {
    pub closed spec fn spec_bus(&self) -> I2C {
        self.bus
    }

    pub closed spec fn spec_config(&self) -> Config {
        self.config
    }

    /// Create a new I2C interface.
    pub fn new(i2c: I2C, config: Config) -> (r: Self)
        ensures
            r.spec_bus() == i2c,
            r.spec_config() == config,
    {
        Self { bus: i2c, config }
    }

    /// The bus, to inspect its state.
    pub fn bus(&self) -> (r: &I2C)
        ensures
            *r == self.spec_bus(),
    {
        &self.bus
    }

    /// Write a value to a register: hands the bus the frame `write_frame(reg, value)`, and
    /// returns the bus error's kind if it fails.
    pub fn write(&mut self, reg: Register, value: u8) -> (r: Result<(), Lsm9ds1Error>)
        ensures
            final(self).spec_config() == old(self).spec_config(),
    {
        let (device_addr, bytes) = self.config.write_frame(reg, value);
        match bus_write(&mut self.bus, device_addr, bytes.as_slice()) {
            Ok(()) => Ok(()),
            Err(kind) => Err(Lsm9ds1Error::I2cError(kind)),
        }
    }

    /// Read a value from a register: hands the bus the frame `read_frame(reg)` with a
    /// one-byte buffer, and returns that byte, or the bus error's kind if it fails.
    pub fn read(&mut self, reg: Register) -> (r: Result<u8, Lsm9ds1Error>)
        ensures
            final(self).spec_config() == old(self).spec_config(),
    {
        let (device_addr, bytes) = self.config.read_frame(reg);
        let mut buf: [u8; 1] = [0];
        match bus_write_read(&mut self.bus, device_addr, bytes.as_slice(), &mut buf) {
            Ok(()) => Ok(buf[0]),
            Err(kind) => Err(Lsm9ds1Error::I2cError(kind)),
        }
    }

    /// Read `buffer.len()` registers in sequence, from `start_reg` on: hands the bus the
    /// frame `read_frame(start_reg)` with `buffer`, and returns the bus error's kind if it
    /// fails.
    pub fn read_multiple(&mut self, start_reg: Register, buffer: &mut [u8]) -> (r: Result<
        (),
        Lsm9ds1Error,
    >)
        ensures
            final(self).spec_config() == old(self).spec_config(),
            final(buffer)@.len() == old(buffer)@.len(),
    {
        let (device_addr, bytes) = self.config.read_frame(start_reg);
        match bus_write_read(&mut self.bus, device_addr, bytes.as_slice(), buffer) {
            Ok(()) => Ok(()),
            Err(kind) => Err(Lsm9ds1Error::I2cError(kind)),
        }
    }
}

} // verus!
