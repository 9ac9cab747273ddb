//! Bit-level read-modify-write access to a line's control registers.

use vstd::prelude::*;

use crate::bus::Bus;
use crate::pin::Bank;

verus! {

/// I/O Direction Register
pub const IODIR: u8 = 0x00;
/// Input Polarity Register
pub const IOPOL: u8 = 0x02;
/// Interrupt-on-change Control Register
pub const GPINTEN: u8 = 0x04;
/// Default Compare Register for Interrupt-on-change
pub const DEFVAL: u8 = 0x06;
/// Interrupt Control Register
pub const INTCON: u8 = 0x08;
/// Configuration Register
pub const IOCON: u8 = 0x0A;
/// Pull-up Resistor Configuration Register
pub const GPPU: u8 = 0x0C;
/// Interrupt Flag Register
pub const INTF: u8 = 0x0E;
/// Interrupt Captured Register
pub const INTCAP: u8 = 0x10;
/// Port Register
pub const GPIO: u8 = 0x12;
/// Output Latch Register
pub const OLAT: u8 = 0x14;

/// Whether bit `index` of `byte` is set.
pub open spec fn bit_set(byte: u8, index: u8) -> bool {
    byte & (1u8 << index) != 0
}

/// `byte` with bit `index` forced to `value` and every other bit preserved.
pub open spec fn with_bit(byte: u8, index: u8, value: bool) -> u8 {
    if value {
        byte | (1u8 << index)
    } else {
        byte & !(1u8 << index)
    }
}

/// The effective address of a register: its bank-A base address, shifted by
/// one for bank B's copy.
pub open spec fn effective_address(base: u8, bank: Bank) -> int {
    match bank {
        Bank::A => base as int,
        Bank::B => base as int + 1,
    }
}

/// One completed combined write-then-read transaction, as a transaction
/// log records it: the byte at effective address `addr` was read and came
/// back as `byte`.
pub struct RegRead {
    /// The effective (bank-shifted) address read.
    pub addr: u8,
    /// The byte the device returned.
    pub byte: u8,
}

/// One completed bit-level register write, as a transaction log records
/// it: bit `index` of the byte at effective address `addr` was forced to
/// `value`, the other bits of that byte were read back and preserved.
pub struct RegWrite {
    /// The effective (bank-shifted) address written.
    pub addr: u8,
    /// The bit position forced.
    pub index: u8,
    /// The value the bit was forced to.
    pub value: bool,
}

/// One completed bus transaction: a combined write-then-read of one byte,
/// or a write of one byte forcing one bit.
pub enum BusOp {
    /// A combined write-then-read transaction.
    Read(RegRead),
    /// A write transaction.
    Write(RegWrite),
}

/// The write that a `set` of `register` records for the line at `index` of
/// `bank`.
pub open spec fn logged_write(register: u8, bank: Bank, index: u8, value: bool) -> RegWrite {
    RegWrite { addr: effective_address(register, bank) as u8, index, value }
}

/// The two transactions of one completed read-modify-write of `register`,
/// in order: the read that returned `byte`, then the write forcing the
/// line's bit.
pub open spec fn read_write(register: u8, bank: Bank, index: u8, value: bool, byte: u8) -> Seq<
    BusOp,
> {
    seq![
        BusOp::Read(RegRead { addr: effective_address(register, bank) as u8, byte }),
        BusOp::Write(logged_write(register, bank, index, value)),
    ]
}

/// A register file after one logged write, assuming nothing else changes
/// the device: the written byte has the one bit forced, all else holds.
pub open spec fn apply_write(mem: Map<u8, u8>, w: RegWrite) -> Map<u8, u8> {
    mem.insert(w.addr, with_bit(mem[w.addr], w.index, w.value))
}

/// A register file after one logged transaction: reads change nothing.
pub open spec fn apply_op(mem: Map<u8, u8>, op: BusOp) -> Map<u8, u8> {
    match op {
        BusOp::Read(_) => mem,
        BusOp::Write(w) => apply_write(mem, w),
    }
}

/// A register file after a whole log of transactions, oldest first.
pub open spec fn apply_ops(mem: Map<u8, u8>, log: Seq<BusOp>) -> Map<u8, u8>
    decreases log.len(),
{
    if log.len() == 0 {
        mem
    } else {
        apply_ops(apply_op(mem, log[0]), log.drop_first())
    }
}

/// Applying a concatenation of logs is applying one after the other.
pub proof fn lemma_apply_ops_concat(mem: Map<u8, u8>, s1: Seq<BusOp>, s2: Seq<BusOp>)
    ensures
        apply_ops(mem, s1 + s2) == apply_ops(apply_ops(mem, s1), s2),
    decreases s1.len(),
{
    if s1.len() == 0 {
        assert(s1 + s2 =~= s2);
    } else {
        assert((s1 + s2)[0] == s1[0]);
        assert((s1 + s2).drop_first() =~= s1.drop_first() + s2);
        lemma_apply_ops_concat(apply_op(mem, s1[0]), s1.drop_first(), s2);
    }
}

/// One completed read-modify-write changes the register file exactly as
/// its write does; the read changes nothing.
pub proof fn lemma_apply_read_write(
    mem: Map<u8, u8>,
    register: u8,
    bank: Bank,
    index: u8,
    value: bool,
    byte: u8,
)
    ensures
        apply_ops(mem, read_write(register, bank, index, value, byte)) == apply_write(
            mem,
            logged_write(register, bank, index, value),
        ),
{
    let s = read_write(register, bank, index, value, byte);
    let w = logged_write(register, bank, index, value);
    assert(s.drop_first() =~= seq![BusOp::Write(w)]);
    assert(seq![BusOp::Write(w)].drop_first() =~= Seq::<BusOp>::empty());
    assert(apply_ops(mem, s) == apply_ops(mem, seq![BusOp::Write(w)]));
    assert(apply_ops(mem, seq![BusOp::Write(w)]) == apply_ops(
        apply_write(mem, w),
        Seq::<BusOp>::empty(),
    ));
}

/// Forcing a bit leaves exactly that bit holding the forced value.
pub proof fn lemma_with_bit_same(byte: u8, index: u8, value: bool)
    requires
        index < 8,
    ensures
        bit_set(with_bit(byte, index, value), index) == value,
{
    assert(bit_set(with_bit(byte, index, value), index) == value) by (bit_vector)
        requires
            index < 8,
    ;
}

/// Forcing one bit preserves every other bit of the byte.
pub proof fn lemma_with_bit_other(byte: u8, index: u8, other: u8, value: bool)
    requires
        index < 8,
        other < 8,
        other != index,
    ensures
        bit_set(with_bit(byte, index, value), other) == bit_set(byte, other),
{
    assert(bit_set(with_bit(byte, index, value), other) == bit_set(byte, other)) by (bit_vector)
        requires
            index < 8,
            other < 8,
            other != index,
    ;
}

/// Setting a clear bit and clearing it again restores the whole byte.
pub proof fn lemma_with_bit_round_trip(byte: u8, index: u8)
    requires
        index < 8,
        !bit_set(byte, index),
    ensures
        with_bit(with_bit(byte, index, true), index, false) == byte,
{
    assert(with_bit(with_bit(byte, index, true), index, false) == byte) by (bit_vector)
        requires
            index < 8,
            !bit_set(byte, index),
    ;
}

/// What a completed write leaves to be read back, on any device state the
/// log model describes: the written bit holds the forced value, the byte's
/// other bits are preserved, and no other register changes.
pub proof fn lemma_write_observed(mem: Map<u8, u8>, w: RegWrite, other: u8)
    requires
        mem.dom().contains(w.addr),
        w.index < 8,
        other < 8,
    ensures
        bit_set(apply_write(mem, w)[w.addr], w.index) == w.value,
        other != w.index ==> bit_set(apply_write(mem, w)[w.addr], other) == bit_set(
            mem[w.addr],
            other,
        ),
        forall|a: u8|
            a != w.addr && mem.dom().contains(a) ==> apply_write(mem, w)[a] == mem[a],
{
    lemma_with_bit_same(mem[w.addr], w.index, w.value);
    if other != w.index {
        lemma_with_bit_other(mem[w.addr], w.index, other, w.value);
    }
}

/// A pin's control registers: the accessor every typed line handle delegates
/// to, bound to one bit position of one bank and owning its own handle on
/// the shared bus.
///
/// This is the raw bit-level interface below the typed pin state machine.
/// It is public so that transports and tests can drive it directly, but a
/// line is meant to be reached only through its one live `Pin` handle:
/// building a second accessor for a line that a handle owns aliases the
/// device bit, and writing a reserved line's direction bit directly breaks
/// the hardware mandate that the typed handles enforce.
pub struct Registers<B: Bus> {
    /// The line's bank.
    pub bank: Bank,
    /// The line's bit position within its bank.
    pub number: u8,
    /// The device's bus address.
    pub device_address: u8,
    /// The line's handle on the shared bus.
    pub i2c: B,
    /// Every bus transaction this accessor has completed, oldest first,
    /// each read with the byte the device returned. Under the assumption
    /// that nothing else writes the device, the register file is
    /// `apply_ops` of this log over the initial state.
    pub log: Ghost<Seq<BusOp>>,
}

impl<B: Bus> Registers<B> {
    /// The accessor is bound to a bit position that exists in an eight-bit
    /// register byte.
    pub open spec fn wf(self) -> bool {
        self.number < 8
    }

    /// The line identity and device binding, which no operation changes.
    pub open spec fn identity(self) -> (Bank, u8, u8) {
        (self.bank, self.number, self.device_address)
    }

    /// Bind an accessor to the line at `number` of `bank`, with nothing
    /// logged yet.
    pub fn new(i2c: B, bank: Bank, number: u8, device_address: u8) -> (r: Registers<B>)
        requires
            number < 8,
        ensures
            r.wf(),
            r.bank == bank,
            r.number == number,
            r.device_address == device_address,
            r.log@ == Seq::<BusOp>::empty(),
    {
        Registers { bank, number, device_address, i2c, log: Ghost(Seq::empty()) }
    }

    /// Shift a register base address to the line's bank.
    pub fn address(&self, base: u8) -> (r: u8)
        requires
            base < 0xFF,
        ensures
            r == effective_address(base, self.bank),
    {
        base + match self.bank {
            Bank::A => 0,
            Bank::B => 1,
        }
    }

    /// Read the line's bit in a register: one combined write-then-read bus
    /// transaction at the bank-shifted address, and nothing else. Which
    /// byte comes back is the device's to decide; on success the log
    /// records that read and the result is that byte's bit for this line,
    /// on failure nothing is recorded and only the error is returned.
    pub fn get(&mut self, register: u8) -> (r: Result<bool, B::Error>)
        requires
            old(self).wf(),
            register < 0xFF,
        ensures
            final(self).wf(),
            final(self).identity() == old(self).identity(),
            match r {
                Ok(level) => exists|byte: u8|
                    final(self).log@ == old(self).log@.push(
                        BusOp::Read(
                            RegRead {
                                addr: effective_address(register, old(self).bank) as u8,
                                byte,
                            },
                        ),
                    ) && level == bit_set(byte, old(self).number),
                Err(_) => final(self).log@ == old(self).log@,
            },
    {
        let address = self.address(register);
        let number = self.number;
        match self.i2c.write_read(self.device_address, address) {
            Ok(byte) => {
                self.log = Ghost(self.log@.push(BusOp::Read(RegRead { addr: address, byte })));
                Ok(read_bit(byte, number))
            },
            Err(e) => Err(e),
        }
    }

    /// Modify the line's bit in a register: read the byte at the
    /// bank-shifted address, force the line's bit to `value` with the other
    /// bits preserved, and write the byte back. Exactly those two bus
    /// transactions, in that order; the pair is not atomic at the device,
    /// so a write from another handle sharing the byte that lands between
    /// them is lost. On success the log records the read and the write; on
    /// failure it records whatever completed — nothing, or the read alone
    /// when the write-back is what failed.
    pub fn set(&mut self, register: u8, value: bool) -> (r: Result<(), B::Error>)
        requires
            old(self).wf(),
            register < 0xFF,
        ensures
            final(self).wf(),
            final(self).identity() == old(self).identity(),
            match r {
                Ok(()) => exists|byte: u8|
                    final(self).log@ == old(self).log@ + read_write(
                        register,
                        old(self).bank,
                        old(self).number,
                        value,
                        byte,
                    ),
                Err(_) => final(self).log@ == old(self).log@ || exists|byte: u8|
                    final(self).log@ == #[trigger] old(self).log@.push(
                        BusOp::Read(
                            RegRead {
                                addr: effective_address(register, old(self).bank) as u8,
                                byte,
                            },
                        ),
                    ),
            },
    {
        let address = self.address(register);
        let number = self.number;
        let byte = match self.i2c.write_read(self.device_address, address) {
            Ok(b) => b,
            Err(e) => {
                return Err(e);
            },
        };
        self.log = Ghost(self.log@.push(BusOp::Read(RegRead { addr: address, byte })));
        let modified = write_bit(byte, number, value);
        match self.i2c.write(self.device_address, address, modified) {
            Ok(()) => {
                self.log = Ghost(
                    self.log@.push(BusOp::Write(RegWrite { addr: address, index: number, value })),
                );
                proof {
                    assert(self.log@ =~= old(self).log@ + read_write(
                        register,
                        old(self).bank,
                        old(self).number,
                        value,
                        byte,
                    ));
                }
                Ok(())
            },
            Err(e) => Err(e),
        }
    }
}

/// Whether bit `index` of `byte` is set, as a value.
pub fn read_bit(byte: u8, index: u8) -> (r: bool)
    requires
        index < 8,
    ensures
        r == bit_set(byte, index),
{
    byte & (1u8 << index) != 0
}

/// `byte` with bit `index` forced to `value`, as a value.
pub fn write_bit(byte: u8, index: u8, value: bool) -> (r: u8)
    requires
        index < 8,
    ensures
        r == with_bit(byte, index, value),
{
    if value {
        byte | (1u8 << index)
    } else {
        byte & !(1u8 << index)
    }
}

} // verus!
