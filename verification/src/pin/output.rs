//! Configurations for using pins as outputs.

use vstd::prelude::*;

use super::input::{Input, InputConfiguration};
use super::{Pin, PinId, PinMode};
use crate::bus::Bus;
use crate::error::Error;
use crate::registers::{
    bit_set, effective_address, read_write, BusOp, RegRead, Registers, GPIO, IODIR,
};

verus! {

/// Marker type for pins set as push-pull outputs.
pub struct Output;

impl PinMode for Output {

}

impl<I: PinId, B: Bus> Pin<I, Output, B> {
    /// Drive the line low: one read-modify-write clearing the line's bit
    /// in the port register. On failure nothing more is done than the log
    /// records — nothing, or the read alone.
    pub fn set_low(&mut self) -> (r: Result<(), Error<B::Error>>)
        requires
            old(self).wf(),
        ensures
            final(self).wf(),
            final(self).identity() == old(self).identity(),
            match r {
                Ok(()) => exists|byte: u8|
                    final(self).log() == old(self).log() + read_write(
                        GPIO,
                        I::bank_spec(),
                        I::number_spec(),
                        false,
                        byte,
                    ),
                Err(_) => final(self).log() == old(self).log() || exists|byte: u8|
                    final(self).log() == #[trigger] old(self).log().push(
                        BusOp::Read(
                            RegRead {
                                addr: effective_address(GPIO, I::bank_spec()) as u8,
                                byte,
                            },
                        ),
                    ),
            },
    {
        match self.registers.set(GPIO, false) {
            Ok(()) => Ok(()),
            Err(e) => Err(Error::Communication(e)),
        }
    }

    /// Drive the line high: one read-modify-write setting the line's bit
    /// in the port register. On failure nothing more is done than the log
    /// records — nothing, or the read alone.
    pub fn set_high(&mut self) -> (r: Result<(), Error<B::Error>>)
        requires
            old(self).wf(),
        ensures
            final(self).wf(),
            final(self).identity() == old(self).identity(),
            match r {
                Ok(()) => exists|byte: u8|
                    final(self).log() == old(self).log() + read_write(
                        GPIO,
                        I::bank_spec(),
                        I::number_spec(),
                        true,
                        byte,
                    ),
                Err(_) => final(self).log() == old(self).log() || exists|byte: u8|
                    final(self).log() == #[trigger] old(self).log().push(
                        BusOp::Read(
                            RegRead {
                                addr: effective_address(GPIO, I::bank_spec()) as u8,
                                byte,
                            },
                        ),
                    ),
            },
    {
        match self.registers.set(GPIO, true) {
            Ok(()) => Ok(()),
            Err(e) => Err(Error::Communication(e)),
        }
    }

    /// Whether the line is driven high: exactly one read of the port
    /// register — which reflects the driven output state — and no write.
    pub fn is_set_high(&mut self) -> (r: Result<bool, Error<B::Error>>)
        requires
            old(self).wf(),
        ensures
            final(self).wf(),
            final(self).identity() == old(self).identity(),
            match r {
                Ok(level) => exists|byte: u8|
                    final(self).log() == old(self).log().push(
                        BusOp::Read(
                            RegRead {
                                addr: effective_address(GPIO, I::bank_spec()) as u8,
                                byte,
                            },
                        ),
                    ) && level == bit_set(byte, I::number_spec()),
                Err(_) => final(self).log() == old(self).log(),
            },
    {
        match self.registers.get(GPIO) {
            Ok(level) => Ok(level),
            Err(e) => Err(Error::Communication(e)),
        }
    }

    /// Whether the line is driven low: exactly one read of the port
    /// register, whose bit for this line is reported negated.
    pub fn is_set_low(&mut self) -> (r: Result<bool, Error<B::Error>>)
        requires
            old(self).wf(),
        ensures
            final(self).wf(),
            final(self).identity() == old(self).identity(),
            match r {
                Ok(level) => exists|byte: u8|
                    final(self).log() == old(self).log().push(
                        BusOp::Read(
                            RegRead {
                                addr: effective_address(GPIO, I::bank_spec()) as u8,
                                byte,
                            },
                        ),
                    ) && level == !bit_set(byte, I::number_spec()),
                Err(_) => final(self).log() == old(self).log(),
            },
    {
        match self.is_set_high() {
            Ok(level) => {
                proof {
                    let b0 = choose|byte: u8|
                        self.log() == old(self).log().push(
                            BusOp::Read(
                                RegRead {
                                    addr: effective_address(GPIO, I::bank_spec()) as u8,
                                    byte,
                                },
                            ),
                        ) && level == bit_set(byte, I::number_spec());
                    assert(self.log() == old(self).log().push(
                        BusOp::Read(
                            RegRead {
                                addr: effective_address(GPIO, I::bank_spec()) as u8,
                                byte: b0,
                            },
                        ),
                    ) && !level == !bit_set(b0, I::number_spec()));
                }
                Ok(!level)
            },
            Err(e) => Err(e),
        }
    }

    /// Take ownership of a line as a push-pull output, driving its
    /// direction bit low first. This is the only way the reserved lines A7
    /// and B7 — output-only by hardware mandate — enter the driver. On
    /// failure the bus handle is consumed and only the error is returned.
    pub fn new_output(id: I, i2c: B, device_address: u8) -> (r: Result<
        Pin<I, Output, B>,
        Error<B::Error>,
    >)
        ensures
            match r {
                Ok(p) => {
                    &&& p.wf()
                    &&& p.identity() == (I::bank_spec(), I::number_spec(), device_address)
                    &&& exists|byte: u8|
                        p.log() == read_write(
                            IODIR,
                            I::bank_spec(),
                            I::number_spec(),
                            false,
                            byte,
                        )
                },
                Err(_) => true,
            },
    {
        let bank = id.bank();
        let number = id.number();
        let mut registers = Registers::new(i2c, bank, number, device_address);
        match registers.set(IODIR, false) {
            Ok(()) => {
                proof {
                    let b0 = choose|byte: u8|
                        registers.log@ == Seq::<BusOp>::empty() + read_write(
                            IODIR,
                            I::bank_spec(),
                            I::number_spec(),
                            false,
                            byte,
                        );
                    assert(registers.log@ =~= read_write(
                        IODIR,
                        I::bank_spec(),
                        I::number_spec(),
                        false,
                        b0,
                    ));
                }
                Ok(Pin { id, mode: Output, registers })
            },
            Err(e) => Err(Error::Communication(e)),
        }
    }
}

impl<I: PinId, C: InputConfiguration, B: Bus> Pin<I, Input<C>, B> {
    /// Reconfigure the pin as a push pull output, by one read-modify-write
    /// clearing the line's direction bit. On failure the handle is
    /// consumed and only the error is returned.
    pub fn into_push_pull_output(self) -> (r: Result<Pin<I, Output, B>, Error<B::Error>>)
        requires
            self.wf(),
        ensures
            match r {
                Ok(p) => {
                    &&& p.wf()
                    &&& p.identity() == self.identity()
                    &&& exists|byte: u8|
                        p.log() == self.log() + read_write(
                            IODIR,
                            I::bank_spec(),
                            I::number_spec(),
                            false,
                            byte,
                        )
                },
                Err(_) => true,
            },
    {
        let mut this = self;
        match this.registers.set(IODIR, false) {
            Ok(()) => Ok(Pin { id: this.id, mode: Output, registers: this.registers }),
            Err(e) => Err(Error::Communication(e)),
        }
    }
}

} // verus!
