//! Configurations for using pins as input.

use vstd::prelude::*;

use super::output::Output;
use super::{InputPinId, Pin, PinId, PinMode};
use crate::bus::Bus;
use crate::error::Error;
use crate::pin::Bank;
use crate::registers::{
    apply_ops, apply_write, bit_set, effective_address, lemma_apply_ops_concat,
    lemma_apply_read_write, lemma_with_bit_round_trip, logged_write, read_write, BusOp, RegRead,
    GPIO, GPPU, IODIR,
};

verus! {

/// Marker type for pins set as inputs. Only the driver's constructors and
/// transitions can build one, so no input-typed handle to a reserved line
/// can exist.
pub struct Input<C: InputConfiguration> {
    /// How the pin's pull resistor is configured.
    pub(crate) config: C,
}

impl<C: InputConfiguration> PinMode for Input<C> {

}

/// Marker trait for input pin configurations.
pub trait InputConfiguration: Sized {

}

/// Marker type for input pins configured as floating: the internal pull-up
/// resistor is disconnected.
pub struct Floating;

impl InputConfiguration for Floating {

}

/// Marker type for input pins configured as pull ups: the internal pull-up
/// resistor is connected.
pub struct PullUp;

impl InputConfiguration for PullUp {

}

impl<I: PinId, C: InputConfiguration, B: Bus> Pin<I, Input<C>, B> {
    /// Whether the line reads high: exactly one read of the port register,
    /// and no write. The byte is the device's to report; the result is that
    /// byte's bit for this line.
    pub fn is_high(&mut self) -> (r: Result<bool, Error<B::Error>>)
        requires
            old(self).wf(),
        ensures
            final(self).wf(),
            final(self).identity() == old(self).identity(),
            match r {
                Ok(level) => exists|byte: u8|
                    final(self).log() == old(self).log().push(
                        BusOp::Read(
                            RegRead {
                                addr: effective_address(GPIO, I::bank_spec()) as u8,
                                byte,
                            },
                        ),
                    ) && level == bit_set(byte, I::number_spec()),
                Err(_) => final(self).log() == old(self).log(),
            },
    {
        match self.registers.get(GPIO) {
            Ok(level) => Ok(level),
            Err(e) => Err(Error::Communication(e)),
        }
    }

    /// Whether the line reads low: exactly one read of the port register,
    /// whose bit for this line is reported negated.
    pub fn is_low(&mut self) -> (r: Result<bool, Error<B::Error>>)
        requires
            old(self).wf(),
        ensures
            final(self).wf(),
            final(self).identity() == old(self).identity(),
            match r {
                Ok(level) => exists|byte: u8|
                    final(self).log() == old(self).log().push(
                        BusOp::Read(
                            RegRead {
                                addr: effective_address(GPIO, I::bank_spec()) as u8,
                                byte,
                            },
                        ),
                    ) && level == !bit_set(byte, I::number_spec()),
                Err(_) => final(self).log() == old(self).log(),
            },
    {
        match self.is_high() {
            Ok(level) => Ok(!level),
            Err(e) => Err(e),
        }
    }
}

impl<I: PinId, B: Bus> Pin<I, Input<PullUp>, B> {
    /// Reconfigure the pin with the internal pull up disconnected, by one
    /// read-modify-write clearing the line's pull-up bit. On failure the
    /// handle is consumed and only the error is returned; the line's
    /// register state is whatever the failed operation left.
    pub fn into_floating_input(self) -> (r: Result<Pin<I, Input<Floating>, B>, Error<B::Error>>)
        requires
            self.wf(),
        ensures
            match r {
                Ok(p) => {
                    &&& p.wf()
                    &&& p.identity() == self.identity()
                    &&& exists|byte: u8|
                        p.log() == self.log() + read_write(
                            GPPU,
                            I::bank_spec(),
                            I::number_spec(),
                            false,
                            byte,
                        )
                },
                Err(_) => true,
            },
    {
        let mut this = self;
        match this.registers.set(GPPU, false) {
            Ok(()) => Ok(
                Pin { id: this.id, mode: Input { config: Floating }, registers: this.registers },
            ),
            Err(e) => Err(Error::Communication(e)),
        }
    }
}

impl<I: PinId, B: Bus> Pin<I, Input<Floating>, B> {
    /// Reconfigure the pin with the internal pull up connected, by one
    /// read-modify-write setting the line's pull-up bit. On failure the
    /// handle is consumed and only the error is returned.
    pub fn into_pull_up_input(self) -> (r: Result<Pin<I, Input<PullUp>, B>, Error<B::Error>>)
        requires
            self.wf(),
        ensures
            match r {
                Ok(p) => {
                    &&& p.wf()
                    &&& p.identity() == self.identity()
                    &&& exists|byte: u8|
                        p.log() == self.log() + read_write(
                            GPPU,
                            I::bank_spec(),
                            I::number_spec(),
                            true,
                            byte,
                        )
                },
                Err(_) => true,
            },
    {
        let mut this = self;
        match this.registers.set(GPPU, true) {
            Ok(()) => Ok(
                Pin { id: this.id, mode: Input { config: PullUp }, registers: this.registers },
            ),
            Err(e) => Err(Error::Communication(e)),
        }
    }
}

impl<I: InputPinId, B: Bus> Pin<I, Output, B> {
    /// Reconfigure the pin as an input, with the internal pull up
    /// disconnected: one read-modify-write clearing the line's pull-up
    /// bit, then one setting its direction bit. Unavailable for the
    /// reserved lines, which must stay outputs.
    ///
    /// If the second write fails the line is left with its pull-up written
    /// but its direction unchanged — a state matching no configuration; the
    /// caller receives only the error and must not assume any state.
    pub fn into_floating_input(self) -> (r: Result<Pin<I, Input<Floating>, B>, Error<B::Error>>)
        requires
            self.wf(),
        ensures
            match r {
                Ok(p) => {
                    &&& p.wf()
                    &&& p.identity() == self.identity()
                    &&& exists|byte1: u8, byte2: u8|
                        p.log() == self.log() + #[trigger] read_write(
                            GPPU,
                            I::bank_spec(),
                            I::number_spec(),
                            false,
                            byte1,
                        ) + #[trigger] read_write(IODIR, I::bank_spec(), I::number_spec(), true, byte2)
                },
                Err(_) => true,
            },
    {
        let mut this = self;
        match this.registers.set(GPPU, false) {
            Ok(()) => (),
            Err(e) => {
                return Err(Error::Communication(e));
            },
        }
        let ghost mid = this.registers.log@;
        match this.registers.set(IODIR, true) {
            Ok(()) => (),
            Err(e) => {
                return Err(Error::Communication(e));
            },
        }
        proof {
            let b1 = choose|b: u8|
                mid == self.registers.log@ + read_write(
                    GPPU,
                    I::bank_spec(),
                    I::number_spec(),
                    false,
                    b,
                );
            let b2 = choose|b: u8|
                this.registers.log@ == mid + read_write(
                    IODIR,
                    I::bank_spec(),
                    I::number_spec(),
                    true,
                    b,
                );
            assert(this.registers.log@ =~= self.registers.log@ + read_write(
                GPPU,
                I::bank_spec(),
                I::number_spec(),
                false,
                b1,
            ) + read_write(IODIR, I::bank_spec(), I::number_spec(), true, b2));
            assert(exists|byte1: u8, byte2: u8|
                this.registers.log@ == self.registers.log@ + read_write(
                    GPPU,
                    I::bank_spec(),
                    I::number_spec(),
                    false,
                    byte1,
                ) + read_write(IODIR, I::bank_spec(), I::number_spec(), true, byte2));
        }
        Ok(Pin { id: this.id, mode: Input { config: Floating }, registers: this.registers })
    }

    /// Reconfigure the pin as an input, with the internal pull up
    /// connected: one read-modify-write setting the line's pull-up bit,
    /// then one setting its direction bit. Unavailable for the reserved
    /// lines, which must stay outputs.
    pub fn into_pull_up_input(self) -> (r: Result<Pin<I, Input<PullUp>, B>, Error<B::Error>>)
        requires
            self.wf(),
        ensures
            match r {
                Ok(p) => {
                    &&& p.wf()
                    &&& p.identity() == self.identity()
                    &&& exists|byte1: u8, byte2: u8|
                        p.log() == self.log() + #[trigger] read_write(
                            GPPU,
                            I::bank_spec(),
                            I::number_spec(),
                            true,
                            byte1,
                        ) + #[trigger] read_write(IODIR, I::bank_spec(), I::number_spec(), true, byte2)
                },
                Err(_) => true,
            },
    {
        let mut this = self;
        match this.registers.set(GPPU, true) {
            Ok(()) => (),
            Err(e) => {
                return Err(Error::Communication(e));
            },
        }
        let ghost mid = this.registers.log@;
        match this.registers.set(IODIR, true) {
            Ok(()) => (),
            Err(e) => {
                return Err(Error::Communication(e));
            },
        }
        proof {
            let b1 = choose|b: u8|
                mid == self.registers.log@ + read_write(
                    GPPU,
                    I::bank_spec(),
                    I::number_spec(),
                    true,
                    b,
                );
            let b2 = choose|b: u8|
                this.registers.log@ == mid + read_write(
                    IODIR,
                    I::bank_spec(),
                    I::number_spec(),
                    true,
                    b,
                );
            assert(this.registers.log@ =~= self.registers.log@ + read_write(
                GPPU,
                I::bank_spec(),
                I::number_spec(),
                true,
                b1,
            ) + read_write(IODIR, I::bank_spec(), I::number_spec(), true, b2));
            assert(exists|byte1: u8, byte2: u8|
                this.registers.log@ == self.registers.log@ + read_write(
                    GPPU,
                    I::bank_spec(),
                    I::number_spec(),
                    true,
                    byte1,
                ) + read_write(IODIR, I::bank_spec(), I::number_spec(), true, byte2));
        }
        Ok(Pin { id: this.id, mode: Input { config: PullUp }, registers: this.registers })
    }
}

/// Connecting the pull up and then disconnecting it — the transactions
/// logged by `into_pull_up_input` followed by `into_floating_input`, for
/// any bytes the two reads returned — returns the pull-up register byte to
/// its starting value and never touches the direction register, on any
/// device state the log model describes.
pub proof fn lemma_pull_up_round_trip(mem: Map<u8, u8>, bank: Bank, n: u8, byte1: u8, byte2: u8)
    requires
        n < 8,
        mem.dom().contains(effective_address(GPPU, bank) as u8),
        mem.dom().contains(effective_address(IODIR, bank) as u8),
        !bit_set(mem[effective_address(GPPU, bank) as u8], n),
    ensures
        ({
            let after = apply_ops(
                mem,
                read_write(GPPU, bank, n, true, byte1) + read_write(GPPU, bank, n, false, byte2),
            );
            &&& after[effective_address(GPPU, bank) as u8] == mem[effective_address(
                GPPU,
                bank,
            ) as u8]
            &&& after[effective_address(IODIR, bank) as u8] == mem[effective_address(
                IODIR,
                bank,
            ) as u8]
        }),
{
    let ga = effective_address(GPPU, bank) as u8;
    let s1 = read_write(GPPU, bank, n, true, byte1);
    let s2 = read_write(GPPU, bank, n, false, byte2);
    lemma_apply_ops_concat(mem, s1, s2);
    lemma_apply_read_write(mem, GPPU, bank, n, true, byte1);
    let m1 = apply_write(mem, logged_write(GPPU, bank, n, true));
    lemma_apply_read_write(m1, GPPU, bank, n, false, byte2);
    let m2 = apply_write(m1, logged_write(GPPU, bank, n, false));
    lemma_with_bit_round_trip(mem[ga], n);
    assert(m2[ga] == mem[ga]);
    assert(effective_address(IODIR, bank) as u8 != ga);
}

} // verus!
