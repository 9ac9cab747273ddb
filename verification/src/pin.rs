//! Typed handles to the expander's sixteen lines.
//!
//! A line's identity (bank and bit position) and its configuration are both
//! carried in the type of its [`Pin`] handle. Mode-transition operations
//! consume the old handle by value and produce a differently typed one bound
//! to the same register accessor, so at most one live handle exists per line
//! and no operation illegal for a configuration can be called.

use vstd::prelude::*;

use crate::bus::Bus;
use crate::registers::{BusOp, Registers};

pub mod input;
pub mod interrupt;
pub mod output;

use input::{Floating, Input};

verus! {

/// Marker type for a bank/port: one of the two independent eight-line
/// groups on the expander, each with its own register set reachable at a
/// one-byte address offset.
#[derive(Clone, Copy, PartialEq, Eq, Structural, Debug)]
pub enum Bank {
    /// Bank A
    A,
    /// Bank B
    B,
}

/// The other of the two banks.
pub open spec fn other_bank(bank: Bank) -> Bank {
    match bank {
        Bank::A => Bank::B,
        Bank::B => Bank::A,
    }
}

/// Marker trait for a pin identifier: a line's bank and bit position, fixed
/// at creation.
pub trait PinId: Sized {
    /// The pin's bank.
    spec fn bank_spec() -> Bank;

    /// The pin's bit position within its bank.
    spec fn number_spec() -> u8;

    /// The pin's bank, as a value.
    fn bank(&self) -> (b: Bank)
        ensures
            b == Self::bank_spec(),
    ;

    /// The pin's bit position, always below eight.
    fn number(&self) -> (n: u8)
        ensures
            n == Self::number_spec(),
            n < 8,
    ;
}

/// Marker trait for pin modes.
pub trait PinMode: Sized {

}

/// Marker trait for pins that may be configured as inputs.
///
/// The reserved pins A7 and B7 are permanently restricted to the output
/// configuration by hardware mandate: they do not implement this trait, so
/// no code path can hand either of them an input or interrupt handle.
pub trait InputPinId: PinId {

}

/// An individually controllable pin on an expander.
///
/// `I` fixes which line this is, `M` which configuration it is in. All
/// methods may error if communication with the device fails.
pub struct Pin<I: PinId, M: PinMode, B: Bus> {
    /// The pin's identity marker. Private, as is the mode marker: a pin
    /// can be built by no path but the constructors and transitions, which
    /// is what keeps the reserved lines out of every input and interrupt
    /// configuration.
    pub(crate) id: I,
    /// The pin's mode marker.
    pub(crate) mode: M,
    /// The pin's register accessor. Public so that its owner can reach the
    /// transport behind it; the register state it guards belongs to this
    /// handle alone, and driving it directly forfeits what the handle's
    /// type says about the line.
    pub registers: Registers<B>,
}

impl<I: PinId, M: PinMode, B: Bus> Pin<I, M, B> {
    /// The register accessor agrees with the pin's typed identity.
    pub open(crate) spec fn wf(self) -> bool {
        &&& self.registers.wf()
        &&& self.registers.bank == I::bank_spec()
        &&& self.registers.number == I::number_spec()
    }

    /// The line identity and device binding, which no operation changes.
    pub open(crate) spec fn identity(self) -> (Bank, u8, u8) {
        self.registers.identity()
    }

    /// Every bus transaction this pin's accessor has completed, oldest
    /// first.
    pub open(crate) spec fn log(self) -> Seq<BusOp> {
        self.registers.log@
    }
}

impl<I: InputPinId, B: Bus> Pin<I, Input<Floating>, B> {
    /// Take ownership of a line as a floating input, the device's power-on
    /// configuration, binding it to its own handle on the shared bus.
    ///
    /// No register is written: the caller partitioning the device must hand
    /// each line to exactly one handle, with the line's direction and
    /// pull-up bits in their power-on state. Reserved lines have no input
    /// identity and enter the driver through `Pin::new_output` instead.
    pub fn new(id: I, i2c: B, device_address: u8) -> (r: Pin<I, Input<Floating>, B>)
        ensures
            r.wf(),
            r.identity() == (I::bank_spec(), I::number_spec(), device_address),
            r.log() == Seq::<BusOp>::empty(),
    {
        let bank = id.bank();
        let number = id.number();
        Pin {
            id,
            mode: Input { config: Floating },
            registers: Registers::new(i2c, bank, number, device_address),
        }
    }
}

/// All pins on an expander, in their default configurations: every line a
/// floating input but the two reserved lines, which begin as outputs.
pub struct Pins<B: Bus> {
    pub a0: Pin<A0, Input<Floating>, B>,
    pub a1: Pin<A1, Input<Floating>, B>,
    pub a2: Pin<A2, Input<Floating>, B>,
    pub a3: Pin<A3, Input<Floating>, B>,
    pub a4: Pin<A4, Input<Floating>, B>,
    pub a5: Pin<A5, Input<Floating>, B>,
    pub a6: Pin<A6, Input<Floating>, B>,
    pub a7: Pin<A7, output::Output, B>,
    pub b0: Pin<B0, Input<Floating>, B>,
    pub b1: Pin<B1, Input<Floating>, B>,
    pub b2: Pin<B2, Input<Floating>, B>,
    pub b3: Pin<B3, Input<Floating>, B>,
    pub b4: Pin<B4, Input<Floating>, B>,
    pub b5: Pin<B5, Input<Floating>, B>,
    pub b6: Pin<B6, Input<Floating>, B>,
    pub b7: Pin<B7, output::Output, B>,
}

/// Bank A pin 0
pub struct A0;

/// Bank A pin 1
pub struct A1;

/// Bank A pin 2
pub struct A2;

/// Bank A pin 3
pub struct A3;

/// Bank A pin 4
pub struct A4;

/// Bank A pin 5
pub struct A5;

/// Bank A pin 6
pub struct A6;

/// Bank A pin 7
pub struct A7;

/// Bank B pin 0
pub struct B0;

/// Bank B pin 1
pub struct B1;

/// Bank B pin 2
pub struct B2;

/// Bank B pin 3
pub struct B3;

/// Bank B pin 4
pub struct B4;

/// Bank B pin 5
pub struct B5;

/// Bank B pin 6
pub struct B6;

/// Bank B pin 7
pub struct B7;

impl PinId for A0 {
    open spec fn bank_spec() -> Bank {
        Bank::A
    }

    open spec fn number_spec() -> u8 {
        0
    }

    fn bank(&self) -> Bank {
        Bank::A
    }

    fn number(&self) -> u8 {
        0
    }
}

impl PinId for A1 {
    open spec fn bank_spec() -> Bank {
        Bank::A
    }

    open spec fn number_spec() -> u8 {
        1
    }

    fn bank(&self) -> Bank {
        Bank::A
    }

    fn number(&self) -> u8 {
        1
    }
}

impl PinId for A2 {
    open spec fn bank_spec() -> Bank {
        Bank::A
    }

    open spec fn number_spec() -> u8 {
        2
    }

    fn bank(&self) -> Bank {
        Bank::A
    }

    fn number(&self) -> u8 {
        2
    }
}

impl PinId for A3 {
    open spec fn bank_spec() -> Bank {
        Bank::A
    }

    open spec fn number_spec() -> u8 {
        3
    }

    fn bank(&self) -> Bank {
        Bank::A
    }

    fn number(&self) -> u8 {
        3
    }
}

impl PinId for A4 {
    open spec fn bank_spec() -> Bank {
        Bank::A
    }

    open spec fn number_spec() -> u8 {
        4
    }

    fn bank(&self) -> Bank {
        Bank::A
    }

    fn number(&self) -> u8 {
        4
    }
}

impl PinId for A5 {
    open spec fn bank_spec() -> Bank {
        Bank::A
    }

    open spec fn number_spec() -> u8 {
        5
    }

    fn bank(&self) -> Bank {
        Bank::A
    }

    fn number(&self) -> u8 {
        5
    }
}

impl PinId for A6 {
    open spec fn bank_spec() -> Bank {
        Bank::A
    }

    open spec fn number_spec() -> u8 {
        6
    }

    fn bank(&self) -> Bank {
        Bank::A
    }

    fn number(&self) -> u8 {
        6
    }
}

impl PinId for A7 {
    open spec fn bank_spec() -> Bank {
        Bank::A
    }

    open spec fn number_spec() -> u8 {
        7
    }

    fn bank(&self) -> Bank {
        Bank::A
    }

    fn number(&self) -> u8 {
        7
    }
}

impl PinId for B0 {
    open spec fn bank_spec() -> Bank {
        Bank::B
    }

    open spec fn number_spec() -> u8 {
        0
    }

    fn bank(&self) -> Bank {
        Bank::B
    }

    fn number(&self) -> u8 {
        0
    }
}

impl PinId for B1 {
    open spec fn bank_spec() -> Bank {
        Bank::B
    }

    open spec fn number_spec() -> u8 {
        1
    }

    fn bank(&self) -> Bank {
        Bank::B
    }

    fn number(&self) -> u8 {
        1
    }
}

impl PinId for B2 {
    open spec fn bank_spec() -> Bank {
        Bank::B
    }

    open spec fn number_spec() -> u8 {
        2
    }

    fn bank(&self) -> Bank {
        Bank::B
    }

    fn number(&self) -> u8 {
        2
    }
}

impl PinId for B3 {
    open spec fn bank_spec() -> Bank {
        Bank::B
    }

    open spec fn number_spec() -> u8 {
        3
    }

    fn bank(&self) -> Bank {
        Bank::B
    }

    fn number(&self) -> u8 {
        3
    }
}

impl PinId for B4 {
    open spec fn bank_spec() -> Bank {
        Bank::B
    }

    open spec fn number_spec() -> u8 {
        4
    }

    fn bank(&self) -> Bank {
        Bank::B
    }

    fn number(&self) -> u8 {
        4
    }
}

impl PinId for B5 {
    open spec fn bank_spec() -> Bank {
        Bank::B
    }

    open spec fn number_spec() -> u8 {
        5
    }

    fn bank(&self) -> Bank {
        Bank::B
    }

    fn number(&self) -> u8 {
        5
    }
}

impl PinId for B6 {
    open spec fn bank_spec() -> Bank {
        Bank::B
    }

    open spec fn number_spec() -> u8 {
        6
    }

    fn bank(&self) -> Bank {
        Bank::B
    }

    fn number(&self) -> u8 {
        6
    }
}

impl PinId for B7 {
    open spec fn bank_spec() -> Bank {
        Bank::B
    }

    open spec fn number_spec() -> u8 {
        7
    }

    fn bank(&self) -> Bank {
        Bank::B
    }

    fn number(&self) -> u8 {
        7
    }
}

impl InputPinId for A0 {

}

impl InputPinId for A1 {

}

impl InputPinId for A2 {

}

impl InputPinId for A3 {

}

impl InputPinId for A4 {

}

impl InputPinId for A5 {

}

impl InputPinId for A6 {

}

impl InputPinId for B0 {

}

impl InputPinId for B1 {

}

impl InputPinId for B2 {

}

impl InputPinId for B3 {

}

impl InputPinId for B4 {

}

impl InputPinId for B5 {

}

impl InputPinId for B6 {

}

} // verus!
