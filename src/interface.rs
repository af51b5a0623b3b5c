//! The bus through which the driver reaches the sensor.
use vstd::prelude::*;

use crate::registers::Register;
use crate::Lsm9ds1Error;

pub mod i2c;

pub use i2c::I2cInterface;

verus! {

/// A register write as the interface saw it: the register, the value, and the outcome.
pub type WriteRecord = (Register, u8, Result<(), Lsm9ds1Error>);

/// A read as the interface saw it: the first register, and the bytes read or the error.
pub type ReadRecord = (Register, Result<Seq<u8>, Lsm9ds1Error>);

/// An interface to the sensor: register reads and writes over some bus.
///
/// The two logs are a model of what the interface was asked and how it answered. An
/// implementation outside verified code need not define them.
pub trait Interface {
    /// Every write asked of this interface, oldest first, with its outcome.
    closed spec fn spec_writes(&self) -> Seq<WriteRecord> {
        Seq::empty()
    }

    /// Every read asked of this interface, oldest first, with its outcome.
    closed spec fn spec_reads(&self) -> Seq<ReadRecord> {
        Seq::empty()
    }

    /// Write a value to a register.
    fn write(&mut self, reg: Register, value: u8) -> (r: Result<(), Lsm9ds1Error>)
        ensures
            final(self).spec_writes() == old(self).spec_writes().push((reg, value, r)),
            final(self).spec_reads() == old(self).spec_reads(),
    ;

    /// Read a value from a register.
    fn read(&mut self, reg: Register) -> (r: Result<u8, Lsm9ds1Error>)
        ensures
            final(self).spec_writes() == old(self).spec_writes(),
            final(self).spec_reads() == old(self).spec_reads().push((reg, byte_record(r))),
    ;

    /// Read multiple values from registers in sequence.
    fn read_multiple(&mut self, start_reg: Register, buffer: &mut [u8]) -> (r: Result<
        (),
        Lsm9ds1Error,
    >)
        ensures
            final(self).spec_writes() == old(self).spec_writes(),
            final(buffer)@.len() == old(buffer)@.len(),
            final(self).spec_reads() == old(self).spec_reads().push(
                (
                    start_reg,
                    match r {
                        Ok(()) => Ok(final(buffer)@),
                        Err(e) => Err(e),
                    },
                ),
            ),
    ;
}

/// The record of a single-byte read with outcome `r`.
pub open spec fn byte_record(r: Result<u8, Lsm9ds1Error>) -> Result<Seq<u8>, Lsm9ds1Error> {
    match r {
        Ok(v) => Ok(seq![v]),
        Err(e) => Err(e),
    }
}

/// The records of writes of `plan` that all succeeded, in order.
pub open spec fn succeeded_writes(plan: Seq<(Register, u8)>) -> Seq<WriteRecord> {
    plan.map_values(|p: (Register, u8)| (p.0, p.1, Ok(())))
}

} // verus!
