//! The register accessor: one typed read method per monitored register.
//!
//! Each accessor issues exactly one write-then-read transaction on the held
//! transport — one register-address byte written to the device at
//! [`Address::Dev`], a two-byte reply read back — and decodes the reply as a
//! little-endian word. A transport failure is wrapped verbatim and returned;
//! nothing is retried, cached, or substituted.

use vstd::prelude::*;

use crate::codec::decode_word;
use crate::codec::le_word;
use crate::registers::Address;
use crate::registers::Cmd;
use crate::transport::Transaction;
use crate::transport::WriteRead;

verus! {

/// Error of a driver call. There is exactly one kind: the held transport
/// failed, and its error is carried verbatim.
#[derive(Clone, Copy, Debug)]
pub enum Error<I2cError> {
    I2cError(I2cError),
}

impl<E> core::convert::From<E> for Error<E> {
    fn from(error: E) -> Self {
        Error::I2cError(error)
    }
}

impl<E> vstd::std_specs::convert::FromSpecImpl<E> for Error<E> {
    open spec fn obeys_from_spec() -> bool {
        true
    }

    open spec fn from_spec(error: E) -> Self {
        Error::I2cError(error)
    }
}

/// Holds when one driver call turned the transport history `pre` into `post`
/// by appending exactly one word-read transaction for register `reg` — a
/// single byte written to the device address, a two-byte reply requested —
/// and returned `r`: the little-endian decoding of this transaction's reply
/// on success, the transport's error wrapped verbatim on failure, and
/// nothing else in any case.
pub open spec fn word_read_step<E>(
    pre: Seq<Transaction<E>>,
    post: Seq<Transaction<E>>,
    reg: u8,
    r: Result<u16, Error<E>>,
) -> bool {
    &&& post.len() == pre.len() + 1
    &&& post.drop_last() == pre
    &&& post.last().address == Address::Dev.spec_value()
    &&& post.last().write == seq![reg]
    &&& match (r, post.last().response) {
        (Ok(v), Ok(reply)) => reply.len() == 2 && v == le_word(reply),
        (Err(Error::I2cError(e)), Err(te)) => e == te,
        _ => false,
    }
}

/// The driver never caches: each call's value is decoded from that call's
/// own reply. So two consecutive calls of the same accessor that both
/// succeeded, but whose transactions got different responses from the
/// transport, returned different values.
pub proof fn lemma_reads_never_cached<E>(
    pre: Seq<Transaction<E>>,
    mid: Seq<Transaction<E>>,
    post: Seq<Transaction<E>>,
    reg: u8,
    v1: u16,
    v2: u16,
)
    requires
        word_read_step(pre, mid, reg, Ok(v1)),
        word_read_step(mid, post, reg, Ok(v2)),
        mid.last().response != post.last().response,
    ensures
        v1 != v2,
{
    crate::codec::lemma_le_word_injective(
        mid.last().response->Ok_0,
        post.last().response->Ok_0,
    );
}

/// Driver handle: owns the bus transport for its whole lifetime.
pub struct BQ40Z50<I2C> {
    i2c: I2C,
}

impl<I2C: WriteRead> BQ40Z50<I2C> {
    /// The transactions the held transport has issued so far.
    pub closed spec fn history(&self) -> Seq<Transaction<I2C::Error>> {
        self.i2c.history()
    }

    /// Take ownership of the transport. No bus traffic is issued;
    /// construction always succeeds (the fallible result is kept for
    /// transports that may one day validate on open).
    pub fn new(i2c: I2C) -> (r: Result<BQ40Z50<I2C>, Error<I2C::Error>>)
        ensures
            r matches Ok(d) && d.history() == i2c.history(),
    {
        let bq40z50 = BQ40Z50 { i2c: i2c };
        Ok(bq40z50)
    }

    /// Give the transport back, consuming the driver.
    pub fn free(self) -> (r: I2C)
        ensures
            r.history() == self.history(),
    {
        self.i2c
    }

    /// Issue one word-read transaction for register `reg` and decode the
    /// two-byte little-endian reply.
    fn read_word(&mut self, reg: Cmd) -> (r: Result<u16, Error<I2C::Error>>)
        ensures
            word_read_step(old(self).history(), final(self).history(), reg.spec_value(), r),
    {
        let ghost pre = self.i2c.history();
        let mut buffer: Vec<u8> = vec![0u8, 0u8];
        let cmd: Vec<u8> = vec![reg.value()];
        assert(buffer@ =~= seq![0u8, 0u8]);
        assert(cmd@ =~= seq![reg.spec_value()]);
        let res = self.i2c.write_read(Address::Dev.value(), cmd.as_slice(), &mut buffer);
        proof {
            assert(self.i2c.history().drop_last() =~= pre);
        }
        match res {
            Ok(()) => {
                let v = decode_word(buffer[0], buffer[1]);
                proof {
                    assert(buffer@ =~= seq![buffer@[0], buffer@[1]]);
                }
                Ok(v)
            },
            Err(e) => Err(Error::I2cError(e)),
        }
    }

    /// Read the temperature register: the pack temperature in deci-Kelvin,
    /// as the device reports it. Unit conversion to degrees Celsius is the
    /// caller's step (see [`crate::convert_temperature_centi`] for the exact
    /// integer form).
    pub fn get_temperature(&mut self) -> (r: Result<u16, Error<I2C::Error>>)
        ensures
            word_read_step(
                old(self).history(),
                final(self).history(),
                Cmd::TemperatureReg.spec_value(),
                r,
            ),
    {
        self.read_word(Cmd::TemperatureReg)
    }

    /// Read the pack voltage register, unscaled.
    pub fn get_voltage(&mut self) -> (r: Result<u16, Error<I2C::Error>>)
        ensures
            word_read_step(
                old(self).history(),
                final(self).history(),
                Cmd::VoltageReg.spec_value(),
                r,
            ),
    {
        self.read_word(Cmd::VoltageReg)
    }

    /// Read the current register, unscaled.
    pub fn get_current(&mut self) -> (r: Result<u16, Error<I2C::Error>>)
        ensures
            word_read_step(
                old(self).history(),
                final(self).history(),
                Cmd::CurrentReg.spec_value(),
                r,
            ),
    {
        self.read_word(Cmd::CurrentReg)
    }

    /// Read the voltage register of cell 1, unscaled.
    pub fn get_cell_voltage_1(&mut self) -> (r: Result<u16, Error<I2C::Error>>)
        ensures
            word_read_step(
                old(self).history(),
                final(self).history(),
                Cmd::CellVoltage1Reg.spec_value(),
                r,
            ),
    {
        self.read_word(Cmd::CellVoltage1Reg)
    }

    /// Read the voltage register of cell 2, unscaled.
    pub fn get_cell_voltage_2(&mut self) -> (r: Result<u16, Error<I2C::Error>>)
        ensures
            word_read_step(
                old(self).history(),
                final(self).history(),
                Cmd::CellVoltage2Reg.spec_value(),
                r,
            ),
    {
        self.read_word(Cmd::CellVoltage2Reg)
    }

    /// Read the voltage register of cell 3, unscaled.
    pub fn get_cell_voltage_3(&mut self) -> (r: Result<u16, Error<I2C::Error>>)
        ensures
            word_read_step(
                old(self).history(),
                final(self).history(),
                Cmd::CellVoltage3Reg.spec_value(),
                r,
            ),
    {
        self.read_word(Cmd::CellVoltage3Reg)
    }

    /// Read the voltage register of cell 4, unscaled.
    pub fn get_cell_voltage_4(&mut self) -> (r: Result<u16, Error<I2C::Error>>)
        ensures
            word_read_step(
                old(self).history(),
                final(self).history(),
                Cmd::CellVoltage4Reg.spec_value(),
                r,
            ),
    {
        self.read_word(Cmd::CellVoltage4Reg)
    }
}

} // verus!
