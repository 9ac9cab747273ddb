//! Configurations for using pins to trigger interrupts.
//!
//! Interrupt handling is centralized in an [`InterruptController`]. Rather
//! than querying the expander separately for each pin when an interrupt is
//! raised, the controller reads the interrupt details once per bank and
//! stores them locally for individual pins to check, so that servicing and
//! clearing an interrupt stays fast and a line can learn whether *it*
//! triggered without any further bus traffic.

use vstd::prelude::*;

use super::{other_bank, Bank, Pin, PinId, PinMode};
use crate::bus::Bus;
use crate::error::Error;
use crate::pin::input::{Input, InputConfiguration};
use crate::registers::{
    bit_set, effective_address, read_write, with_bit, BusOp, RegRead, DEFVAL, GPINTEN, GPIO,
    INTCAP, INTCON, INTF,
};

verus! {

/// Marker type for pins set as interrupt sources: electrically an input in
/// configuration `C`, additionally armed to raise a hardware interrupt.
/// Only the driver's transitions can build one, so no interrupt-typed
/// handle to a reserved line can exist.
pub struct Interrupt<C: InputConfiguration> {
    /// How the pin's pull resistor is configured.
    pub(crate) config: C,
}

impl<C: InputConfiguration> PinMode for Interrupt<C> {

}

impl<I: PinId, C: InputConfiguration, B: Bus> Pin<I, Interrupt<C>, B> {
    /// Whether the line reads high: exactly one read of the port register,
    /// and no write. The byte is the device's to report; the result is that
    /// byte's bit for this line.
    pub fn is_high(&mut self) -> (r: Result<bool, Error<B::Error>>)
        requires
            old(self).wf(),
        ensures
            final(self).wf(),
            final(self).identity() == old(self).identity(),
            match r {
                Ok(level) => exists|byte: u8|
                    final(self).log() == old(self).log().push(
                        BusOp::Read(
                            RegRead {
                                addr: effective_address(GPIO, I::bank_spec()) as u8,
                                byte,
                            },
                        ),
                    ) && level == bit_set(byte, I::number_spec()),
                Err(_) => final(self).log() == old(self).log(),
            },
    {
        match self.registers.get(GPIO) {
            Ok(level) => Ok(level),
            Err(e) => Err(Error::Communication(e)),
        }
    }

    /// Whether the line reads low: exactly one read of the port register,
    /// whose bit for this line is reported negated.
    pub fn is_low(&mut self) -> (r: Result<bool, Error<B::Error>>)
        requires
            old(self).wf(),
        ensures
            final(self).wf(),
            final(self).identity() == old(self).identity(),
            match r {
                Ok(level) => exists|byte: u8|
                    final(self).log() == old(self).log().push(
                        BusOp::Read(
                            RegRead {
                                addr: effective_address(GPIO, I::bank_spec()) as u8,
                                byte,
                            },
                        ),
                    ) && level == !bit_set(byte, I::number_spec()),
                Err(_) => final(self).log() == old(self).log(),
            },
    {
        match self.is_high() {
            Ok(level) => {
                proof {
                    let b0 = choose|byte: u8|
                        self.log() == old(self).log().push(
                            BusOp::Read(
                                RegRead {
                                    addr: effective_address(GPIO, I::bank_spec()) as u8,
                                    byte,
                                },
                            ),
                        ) && level == bit_set(byte, I::number_spec());
                    assert(self.log() == old(self).log().push(
                        BusOp::Read(
                            RegRead {
                                addr: effective_address(GPIO, I::bank_spec()) as u8,
                                byte: b0,
                            },
                        ),
                    ) && !level == !bit_set(b0, I::number_spec()));
                }
                Ok(!level)
            },
            Err(e) => Err(e),
        }
    }

    /// Reconfigure the pin not to trigger interrupts, by one
    /// read-modify-write clearing the line's interrupt-enable bit. The
    /// electrical configuration is untouched, so the pin returns to the
    /// matching plain input mode.
    pub fn disable_interrupt(self) -> (r: Result<Pin<I, Input<C>, B>, Error<B::Error>>)
        requires
            self.wf(),
        ensures
            match r {
                Ok(p) => {
                    &&& p.wf()
                    &&& p.identity() == self.identity()
                    &&& exists|byte: u8|
                        p.log() == self.log() + read_write(
                            GPINTEN,
                            I::bank_spec(),
                            I::number_spec(),
                            false,
                            byte,
                        )
                },
                Err(_) => true,
            },
    {
        let mut this = self;
        match this.registers.set(GPINTEN, false) {
            Ok(()) => Ok(
                Pin {
                    id: this.id,
                    mode: Input { config: this.mode.config },
                    registers: this.registers,
                },
            ),
            Err(e) => Err(Error::Communication(e)),
        }
    }
}

/// An interrupt trigger condition.
#[derive(Clone, Copy)]
pub enum Sense {
    /// Trigger while the level is high: compare against a default of low.
    High,
    /// Trigger while the level is low: compare against a default of high.
    Low,
    /// Trigger on either edge.
    Edge,
}

/// The transactions that arm a line's interrupt, in order, for each
/// trigger sense: level senses compare against a default level, the edge
/// sense compares against the previous level, and the interrupt-enable bit
/// is always written last. Each read-modify-write carries the byte its
/// read returned; the edge sense makes only two, so `byte3` is unused
/// there.
pub open spec fn interrupt_enable_ops(
    sense: Sense,
    bank: Bank,
    index: u8,
    byte1: u8,
    byte2: u8,
    byte3: u8,
) -> Seq<BusOp> {
    match sense {
        Sense::High => read_write(INTCON, bank, index, true, byte1) + read_write(
            DEFVAL,
            bank,
            index,
            false,
            byte2,
        ) + read_write(GPINTEN, bank, index, true, byte3),
        Sense::Low => read_write(INTCON, bank, index, true, byte1) + read_write(
            DEFVAL,
            bank,
            index,
            true,
            byte2,
        ) + read_write(GPINTEN, bank, index, true, byte3),
        Sense::Edge => read_write(INTCON, bank, index, false, byte1) + read_write(
            GPINTEN,
            bank,
            index,
            true,
            byte2,
        ),
    }
}

impl<I: PinId, C: InputConfiguration, B: Bus> Pin<I, Input<C>, B> {
    /// Reconfigure the pin to trigger interrupts with the given sense,
    /// keeping its electrical input configuration.
    ///
    /// If a write after the first fails, the line is left with only a
    /// prefix of the arming writes applied — a state matching no
    /// configuration; the caller receives only the error and must not
    /// assume any state.
    pub fn enable_interrupt(self, sense: Sense) -> (r: Result<
        Pin<I, Interrupt<C>, B>,
        Error<B::Error>,
    >)
        requires
            self.wf(),
        ensures
            match r {
                Ok(p) => {
                    &&& p.wf()
                    &&& p.identity() == self.identity()
                    &&& exists|byte1: u8, byte2: u8, byte3: u8|
                        p.log() == self.log() + interrupt_enable_ops(
                            sense,
                            I::bank_spec(),
                            I::number_spec(),
                            byte1,
                            byte2,
                            byte3,
                        )
                },
                Err(_) => true,
            },
    {
        let mut this = self;
        let ghost mut mid1: Seq<BusOp> = this.registers.log@;
        match sense {
            Sense::High => {
                match this.registers.set(INTCON, true) {
                    Ok(()) => (),
                    Err(e) => {
                        return Err(Error::Communication(e));
                    },
                }
                proof {
                    mid1 = this.registers.log@;
                }
                match this.registers.set(DEFVAL, false) {
                    Ok(()) => (),
                    Err(e) => {
                        return Err(Error::Communication(e));
                    },
                }
            },
            Sense::Low => {
                match this.registers.set(INTCON, true) {
                    Ok(()) => (),
                    Err(e) => {
                        return Err(Error::Communication(e));
                    },
                }
                proof {
                    mid1 = this.registers.log@;
                }
                match this.registers.set(DEFVAL, true) {
                    Ok(()) => (),
                    Err(e) => {
                        return Err(Error::Communication(e));
                    },
                }
            },
            Sense::Edge => {
                match this.registers.set(INTCON, false) {
                    Ok(()) => (),
                    Err(e) => {
                        return Err(Error::Communication(e));
                    },
                }
                proof {
                    mid1 = this.registers.log@;
                }
            },
        }
        let ghost mid2 = this.registers.log@;
        match this.registers.set(GPINTEN, true) {
            Ok(()) => (),
            Err(e) => {
                return Err(Error::Communication(e));
            },
        }
        proof {
            let bank = I::bank_spec();
            let n = I::number_spec();
            match sense {
                Sense::High => {
                    let b1 = choose|b: u8|
                        mid1 == self.registers.log@ + read_write(INTCON, bank, n, true, b);
                    let b2 = choose|b: u8| mid2 == mid1 + read_write(DEFVAL, bank, n, false, b);
                    let b3 = choose|b: u8|
                        this.registers.log@ == mid2 + read_write(GPINTEN, bank, n, true, b);
                    assert(this.registers.log@ =~= self.registers.log@ + interrupt_enable_ops(
                        sense,
                        bank,
                        n,
                        b1,
                        b2,
                        b3,
                    ));
                    assert(exists|x: u8, y: u8, z: u8|
                        this.registers.log@ == self.registers.log@ + interrupt_enable_ops(
                            sense,
                            bank,
                            n,
                            x,
                            y,
                            z,
                        ));
                },
                Sense::Low => {
                    let b1 = choose|b: u8|
                        mid1 == self.registers.log@ + read_write(INTCON, bank, n, true, b);
                    let b2 = choose|b: u8| mid2 == mid1 + read_write(DEFVAL, bank, n, true, b);
                    let b3 = choose|b: u8|
                        this.registers.log@ == mid2 + read_write(GPINTEN, bank, n, true, b);
                    assert(this.registers.log@ =~= self.registers.log@ + interrupt_enable_ops(
                        sense,
                        bank,
                        n,
                        b1,
                        b2,
                        b3,
                    ));
                    assert(exists|x: u8, y: u8, z: u8|
                        this.registers.log@ == self.registers.log@ + interrupt_enable_ops(
                            sense,
                            bank,
                            n,
                            x,
                            y,
                            z,
                        ));
                },
                Sense::Edge => {
                    let b1 = choose|b: u8|
                        mid1 == self.registers.log@ + read_write(INTCON, bank, n, false, b);
                    let b2 = choose|b: u8|
                        this.registers.log@ == mid1 + read_write(GPINTEN, bank, n, true, b);
                    assert(this.registers.log@ =~= self.registers.log@ + interrupt_enable_ops(
                        sense,
                        bank,
                        n,
                        b1,
                        b2,
                        0,
                    ));
                    assert(exists|x: u8, y: u8, z: u8|
                        this.registers.log@ == self.registers.log@ + interrupt_enable_ops(
                            sense,
                            bank,
                            n,
                            x,
                            y,
                            z,
                        ));
                },
            }
        }
        Ok(
            Pin {
                id: this.id,
                mode: Interrupt { config: this.mode.config },
                registers: this.registers,
            },
        )
    }
}

/// The flag bitmap after a service pass absorbs a freshly read interrupt
/// flag byte: flags accumulate by OR and are never cleared here, so
/// servicing is additive and idempotent for already pending lines.
pub open spec fn merged_flag(flag: u8, intf: u8) -> u8 {
    flag | intf
}

/// The capture bitmap after a service pass: lines flagged by the fresh
/// interrupt flag byte take their freshly captured level, all other lines
/// keep the level already stored.
pub open spec fn merged_capture(capture: u8, intf: u8, intcap: u8) -> u8 {
    (capture & !intf) | (intcap & intf)
}

/// A centralized hub for coordinating interrupts across all pins on an
/// expander.
///
/// It owns a bus handle independent of every line's and two pairs of
/// bitmaps, one pair per bank: `interrupt_flag` records which lines have an
/// unconsumed interrupt, `interrupt_capture` the level each captured when
/// it triggered, meaningful only where the flag bit is set. Both pairs are
/// created all zero when the device is partitioned.
///
/// Every operation takes the controller exclusively; contexts that
/// interleave servicing and consumption must arrange that exclusion. The
/// contracts keep distinct lines and distinct banks independent, so the
/// order in which lines are serviced and consumed never matters.
pub struct InterruptController<B: Bus> {
    /// The controller's own handle on the shared bus.
    pub i2c: B,
    /// The device's bus address.
    pub device_address: u8,
    /// Per-bank flag bitmaps, bank A first.
    pub interrupt_flag: (u8, u8),
    /// Per-bank captured-level bitmaps, bank A first.
    pub interrupt_capture: (u8, u8),
    /// Every bus transaction the controller has completed, oldest first —
    /// reads only: the controller never writes a device register.
    pub log: Ghost<Seq<BusOp>>,
}

impl<B: Bus> InterruptController<B> {
    /// The flag bitmap of a bank.
    pub open spec fn flag(self, bank: Bank) -> u8 {
        match bank {
            Bank::A => self.interrupt_flag.0,
            Bank::B => self.interrupt_flag.1,
        }
    }

    /// The capture bitmap of a bank.
    pub open spec fn capture(self, bank: Bank) -> u8 {
        match bank {
            Bank::A => self.interrupt_capture.0,
            Bank::B => self.interrupt_capture.1,
        }
    }

    /// A controller with nothing pending, bound to its own bus handle.
    pub fn new(i2c: B, device_address: u8) -> (r: InterruptController<B>)
        ensures
            r.device_address == device_address,
            r.interrupt_flag == (0u8, 0u8),
            r.interrupt_capture == (0u8, 0u8),
            r.log@ == Seq::<BusOp>::empty(),
    {
        InterruptController {
            i2c,
            device_address,
            interrupt_flag: (0, 0),
            interrupt_capture: (0, 0),
            log: Ghost(Seq::empty()),
        }
    }

    /// Fold one bank's freshly read interrupt flag and captured-level bytes
    /// into the cache: the bank's flags accumulate by OR, its captured
    /// levels are replaced where the flag byte marks a line and preserved
    /// elsewhere, and the other bank is untouched. Memory only; no bus
    /// traffic.
    pub fn absorb(&mut self, bank: Bank, intf: u8, intcap: u8)
        ensures
            final(self).flag(bank) == merged_flag(old(self).flag(bank), intf),
            final(self).capture(bank) == merged_capture(old(self).capture(bank), intf, intcap),
            final(self).flag(other_bank(bank)) == old(self).flag(other_bank(bank)),
            final(self).capture(other_bank(bank)) == old(self).capture(other_bank(bank)),
            final(self).device_address == old(self).device_address,
            final(self).i2c == old(self).i2c,
            final(self).log@ == old(self).log@,
    {
        match bank {
            Bank::A => {
                self.interrupt_flag = (self.interrupt_flag.0 | intf, self.interrupt_flag.1);
                self.interrupt_capture = (
                    (self.interrupt_capture.0 & !intf) | (intcap & intf),
                    self.interrupt_capture.1,
                );
            },
            Bank::B => {
                self.interrupt_flag = (self.interrupt_flag.0, self.interrupt_flag.1 | intf);
                self.interrupt_capture = (
                    self.interrupt_capture.0,
                    (self.interrupt_capture.1 & !intf) | (intcap & intf),
                );
            },
        }
    }

    /// Handle an interrupt on a bank.
    ///
    /// Exactly two bus transactions, in order — a read of the bank's
    /// interrupt flag register, then a read of its captured-level register,
    /// which also clears the interrupt condition at the device — and no
    /// write; `absorb` folds the two bytes read into the cache. Which
    /// bytes arrive is the device's to decide. It should be called once
    /// per interrupt assertion, immediately, in the interrupt service
    /// context; pins then check the cause with [`Self::triggered`] at any
    /// time. On any bus failure the cache is left unchanged and the log
    /// records whatever completed — nothing, or the flag read alone.
    pub fn interrupt(&mut self, bank: Bank) -> (r: Result<(), Error<B::Error>>)
        ensures
            final(self).device_address == old(self).device_address,
            final(self).flag(other_bank(bank)) == old(self).flag(other_bank(bank)),
            final(self).capture(other_bank(bank)) == old(self).capture(other_bank(bank)),
            match r {
                Ok(()) => exists|intf: u8, intcap: u8|
                    {
                        &&& final(self).log@ == old(self).log@ + seq![
                            BusOp::Read(
                                RegRead {
                                    addr: effective_address(INTF, bank) as u8,
                                    byte: intf,
                                },
                            ),
                            BusOp::Read(
                                RegRead {
                                    addr: effective_address(INTCAP, bank) as u8,
                                    byte: intcap,
                                },
                            ),
                        ]
                        &&& final(self).flag(bank) == merged_flag(old(self).flag(bank), intf)
                        &&& final(self).capture(bank) == merged_capture(
                            old(self).capture(bank),
                            intf,
                            intcap,
                        )
                    },
                Err(_) => {
                    &&& final(self).flag(bank) == old(self).flag(bank)
                    &&& final(self).capture(bank) == old(self).capture(bank)
                    &&& (final(self).log@ == old(self).log@ || exists|intf: u8|
                        final(self).log@ == #[trigger] old(self).log@.push(
                            BusOp::Read(
                                RegRead {
                                    addr: effective_address(INTF, bank) as u8,
                                    byte: intf,
                                },
                            ),
                        ))
                },
            },
    {
        let intf_address = match bank {
            Bank::A => INTF,
            Bank::B => INTF + 1,
        };
        let intf = match self.i2c.write_read(self.device_address, intf_address) {
            Ok(byte) => {
                self.log = Ghost(
                    self.log@.push(BusOp::Read(RegRead { addr: intf_address, byte })),
                );
                byte
            },
            Err(e) => {
                return Err(Error::Communication(e));
            },
        };
        let intcap_address = match bank {
            Bank::A => INTCAP,
            Bank::B => INTCAP + 1,
        };
        let intcap = match self.i2c.write_read(self.device_address, intcap_address) {
            Ok(byte) => {
                self.log = Ghost(
                    self.log@.push(BusOp::Read(RegRead { addr: intcap_address, byte })),
                );
                byte
            },
            Err(e) => {
                return Err(Error::Communication(e));
            },
        };
        self.absorb(bank, intf, intcap);
        proof {
            assert(self.log@ =~= old(self).log@ + seq![
                BusOp::Read(RegRead { addr: effective_address(INTF, bank) as u8, byte: intf }),
                BusOp::Read(
                    RegRead { addr: effective_address(INTCAP, bank) as u8, byte: intcap },
                ),
            ]);
            assert(self.flag(bank) == merged_flag(old(self).flag(bank), intf));
            assert(self.capture(bank) == merged_capture(old(self).capture(bank), intf, intcap));
        }
        Ok(())
    }

    /// Check whether a pin has triggered an interrupt since it was last
    /// asked, and if so consume the record: the line's flag bit is cleared,
    /// and if it was set, the line's capture bit is cleared too and its
    /// prior value returned as the captured level. Memory only — no bus
    /// traffic — and lines never interfere: only the queried line's bits of
    /// the queried bank change.
    pub fn triggered<I: PinId, C: InputConfiguration, P: Bus>(
        &mut self,
        pin: &Pin<I, Interrupt<C>, P>,
    ) -> (r: Option<bool>)
        requires
            pin.wf(),
        ensures
            ({
                let bank = I::bank_spec();
                let n = I::number_spec();
                &&& final(self).device_address == old(self).device_address
                &&& final(self).i2c == old(self).i2c
                &&& final(self).log@ == old(self).log@
                &&& final(self).flag(other_bank(bank)) == old(self).flag(other_bank(bank))
                &&& final(self).capture(other_bank(bank)) == old(self).capture(other_bank(bank))
                &&& if bit_set(old(self).flag(bank), n) {
                    &&& r == Some(bit_set(old(self).capture(bank), n))
                    &&& final(self).flag(bank) == with_bit(old(self).flag(bank), n, false)
                    &&& final(self).capture(bank) == with_bit(old(self).capture(bank), n, false)
                } else {
                    &&& r == None::<bool>
                    &&& final(self).flag(bank) == old(self).flag(bank)
                    &&& final(self).capture(bank) == old(self).capture(bank)
                }
            }),
    {
        let mask: u8 = 1u8 << pin.registers.number;
        match pin.registers.bank {
            Bank::A => {
                let read = self.interrupt_flag.0;
                if read & mask != 0 {
                    self.interrupt_flag = (read & !mask, self.interrupt_flag.1);
                    let cap = self.interrupt_capture.0;
                    self.interrupt_capture = (cap & !mask, self.interrupt_capture.1);
                    Some(cap & mask != 0)
                } else {
                    None
                }
            },
            Bank::B => {
                let read = self.interrupt_flag.1;
                if read & mask != 0 {
                    self.interrupt_flag = (self.interrupt_flag.0, read & !mask);
                    let cap = self.interrupt_capture.1;
                    self.interrupt_capture = (self.interrupt_capture.0, cap & !mask);
                    Some(cap & mask != 0)
                } else {
                    None
                }
            },
        }
    }
}

/// A serviced interrupt is observed exactly once: after a service pass
/// whose flag byte marks line `n`, the line is pending with the freshly
/// captured level, and once that record is consumed the line is pending no
/// more, so a second query finds nothing.
pub proof fn lemma_serviced_line_consumed_once(
    flag: u8,
    capture: u8,
    intf: u8,
    intcap: u8,
    n: u8,
)
    requires
        n < 8,
        bit_set(intf, n),
    ensures
        bit_set(merged_flag(flag, intf), n),
        bit_set(merged_capture(capture, intf, intcap), n) == bit_set(intcap, n),
        !bit_set(with_bit(merged_flag(flag, intf), n, false), n),
{
    assert(bit_set(merged_flag(flag, intf), n)) by (bit_vector)
        requires
            n < 8,
            bit_set(intf, n),
    ;
    assert(bit_set(merged_capture(capture, intf, intcap), n) == bit_set(intcap, n))
        by (bit_vector)
        requires
            n < 8,
            bit_set(intf, n),
    ;
    assert(!bit_set(with_bit(merged_flag(flag, intf), n, false), n)) by (bit_vector)
        requires
            n < 8,
    ;
}

/// Distinct lines never interfere: consuming line `n`'s record leaves line
/// `m`'s pending flag and stored level exactly as they were.
pub proof fn lemma_lines_independent(flag: u8, capture: u8, m: u8, n: u8)
    requires
        m < 8,
        n < 8,
        m != n,
    ensures
        bit_set(with_bit(flag, n, false), m) == bit_set(flag, m),
        bit_set(with_bit(capture, n, false), m) == bit_set(capture, m),
{
    assert(bit_set(with_bit(flag, n, false), m) == bit_set(flag, m)) by (bit_vector)
        requires
            m < 8,
            n < 8,
            m != n,
    ;
    assert(bit_set(with_bit(capture, n, false), m) == bit_set(capture, m)) by (bit_vector)
        requires
            m < 8,
            n < 8,
            m != n,
    ;
}

/// Servicing is additive: after a pass flags line `m`, a later pass whose
/// flag byte does not cover `m` leaves `m` pending with its captured level
/// intact, while flagging its own line `n` — so interleaved service passes
/// on one bank lose nothing.
pub proof fn lemma_service_additive(
    flag: u8,
    capture: u8,
    intf1: u8,
    intcap1: u8,
    intf2: u8,
    intcap2: u8,
    m: u8,
    n: u8,
)
    requires
        m < 8,
        n < 8,
        bit_set(intf1, m),
        bit_set(intf2, n),
        !bit_set(intf2, m),
    ensures
        bit_set(merged_flag(merged_flag(flag, intf1), intf2), m),
        bit_set(merged_flag(merged_flag(flag, intf1), intf2), n),
        bit_set(
            merged_capture(merged_capture(capture, intf1, intcap1), intf2, intcap2),
            m,
        ) == bit_set(intcap1, m),
{
    assert(bit_set(merged_flag(merged_flag(flag, intf1), intf2), m)) by (bit_vector)
        requires
            m < 8,
            bit_set(intf1, m),
    ;
    assert(bit_set(merged_flag(merged_flag(flag, intf1), intf2), n)) by (bit_vector)
        requires
            n < 8,
            bit_set(intf2, n),
    ;
    assert(bit_set(
        merged_capture(merged_capture(capture, intf1, intcap1), intf2, intcap2),
        m,
    ) == bit_set(intcap1, m)) by (bit_vector)
        requires
            m < 8,
            bit_set(intf1, m),
            !bit_set(intf2, m),
    ;
}

} // verus!
