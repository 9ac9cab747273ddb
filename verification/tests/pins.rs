//! Register accessor and pin state machine behaviour against an in-memory
//! transport stub that echoes last-written bytes.

use mcp23017::bus::Bus;
use mcp23017::error::Error;
use mcp23017::pin::input::{Floating, Input};
use mcp23017::pin::interrupt::Sense;
use mcp23017::pin::{Bank, Pin, A0, A1, A2, A3, A5, A7, B4, B7};
use mcp23017::registers::{Registers, DEFVAL, GPINTEN, GPIO, GPPU, INTCON, IODIR};

/// A transport that stores bytes by register address and echoes them back,
/// optionally failing from the nth write transaction on.
struct EchoBus {
    regs: [u8; 32],
    writes: usize,
    fail_from_write: usize,
}

impl EchoBus {
    fn new() -> EchoBus {
        EchoBus {
            regs: [0; 32],
            writes: 0,
            fail_from_write: usize::MAX,
        }
    }

    fn failing_from(fail_from_write: usize) -> EchoBus {
        EchoBus {
            regs: [0; 32],
            writes: 0,
            fail_from_write,
        }
    }
}

impl Bus for EchoBus {
    type Error = ();

    fn write(&mut self, _address: u8, register: u8, value: u8) -> Result<(), ()> {
        self.writes += 1;
        if self.writes >= self.fail_from_write {
            return Err(());
        }
        self.regs[register as usize] = value;
        Ok(())
    }

    fn write_read(&mut self, _address: u8, register: u8) -> Result<u8, ()> {
        Ok(self.regs[register as usize])
    }
}

const ADDRESS: u8 = 0x20;

#[test]
fn effective_address_shifts_per_bank() {
    let bases: [u8; 8] = [0x00, 0x04, 0x06, 0x08, 0x0C, 0x0E, 0x10, 0x12];
    for base in bases {
        let regs_a = Registers::new(EchoBus::new(), Bank::A, 0, ADDRESS);
        assert_eq!(regs_a.address(base), base);
        let regs_b = Registers::new(EchoBus::new(), Bank::B, 0, ADDRESS);
        assert_eq!(regs_b.address(base), base + 1);
    }
}

#[test]
fn get_reflects_last_written_byte() {
    for index in 0u8..8u8 {
        let mut bus = EchoBus::new();
        bus.write(ADDRESS, GPPU, 1 << index).unwrap();
        let mut regs = Registers::new(bus, Bank::A, index, ADDRESS);
        assert_eq!(regs.get(GPPU), Ok(true));

        let mut bus = EchoBus::new();
        bus.write(ADDRESS, GPPU, !(1 << index)).unwrap();
        let mut regs = Registers::new(bus, Bank::A, index, ADDRESS);
        assert_eq!(regs.get(GPPU), Ok(false));
    }
}

#[test]
fn get_uses_bank_shifted_address() {
    let mut bus = EchoBus::new();
    // bank B's copy of the pull-up register lives one past the base address
    bus.write(ADDRESS, GPPU + 1, 0b0000_0100).unwrap();
    let mut regs = Registers::new(bus, Bank::B, 2, ADDRESS);
    assert_eq!(regs.get(GPPU), Ok(true));
    let mut bus = EchoBus::new();
    bus.write(ADDRESS, GPPU, 0b0000_0100).unwrap();
    let mut regs = Registers::new(bus, Bank::B, 2, ADDRESS);
    assert_eq!(regs.get(GPPU), Ok(false));
}

#[test]
fn set_then_get_round_trips_every_index() {
    for index in 0u8..8u8 {
        let mut regs = Registers::new(EchoBus::new(), Bank::A, index, ADDRESS);
        regs.set(GPPU, true).unwrap();
        assert_eq!(regs.get(GPPU), Ok(true));
        regs.set(GPPU, false).unwrap();
        assert_eq!(regs.get(GPPU), Ok(false));
    }
}

#[test]
fn set_preserves_other_bits() {
    let mut bus = EchoBus::new();
    bus.write(ADDRESS, GPIO, 0b1010_0001).unwrap();
    let mut regs = Registers::new(bus, Bank::A, 3, ADDRESS);
    regs.set(GPIO, true).unwrap();
    assert_eq!(regs.i2c.regs[GPIO as usize], 0b1010_1001);
    regs.set(GPIO, false).unwrap();
    assert_eq!(regs.i2c.regs[GPIO as usize], 0b1010_0001);
}

#[test]
fn pull_up_round_trips_gppu_without_touching_iodir() {
    let mut bus = EchoBus::new();
    bus.write(ADDRESS, IODIR, 0xFF).unwrap();
    let pin = Pin::new(A3, bus, ADDRESS);
    let pin = pin.into_pull_up_input().unwrap();
    assert_eq!(pin.registers.i2c.regs[GPPU as usize], 0b0000_1000);
    let pin = pin.into_floating_input().unwrap();
    assert_eq!(pin.registers.i2c.regs[GPPU as usize], 0x00);
    assert_eq!(pin.registers.i2c.regs[IODIR as usize], 0xFF);
}

#[test]
fn output_transition_failing_on_second_write_surfaces_error() {
    // one write makes the pin an output; the reconfiguration to input then
    // writes the pull-up register and fails on the direction register
    let bus = EchoBus::failing_from(3);
    let pin = Pin::new(A1, bus, ADDRESS);
    let pin = pin.into_push_pull_output().unwrap();
    let result: Result<Pin<A1, Input<Floating>, EchoBus>, Error<()>> = pin.into_floating_input();
    assert!(matches!(result, Err(Error::Communication(()))));
}

#[test]
fn interrupt_transition_failing_on_last_write_surfaces_error() {
    // arming with a level sense writes three registers; fail the third
    let bus = EchoBus::failing_from(3);
    let pin = Pin::new(A2, bus, ADDRESS);
    let result = pin.enable_interrupt(Sense::Low);
    assert!(matches!(result, Err(Error::Communication(()))));
}

#[test]
fn new_output_drives_direction_bit_low() {
    let mut bus = EchoBus::new();
    bus.write(ADDRESS, IODIR, 0xFF).unwrap();
    let pin = Pin::new_output(A7, bus, ADDRESS).unwrap();
    assert_eq!(pin.registers.i2c.regs[IODIR as usize], 0x7F);
}

#[test]
fn reserved_line_of_bank_b_becomes_output_at_its_shifted_address() {
    let mut bus = EchoBus::new();
    bus.write(ADDRESS, IODIR + 1, 0xFF).unwrap();
    let pin = Pin::new_output(B7, bus, ADDRESS).unwrap();
    assert_eq!(pin.registers.i2c.regs[(IODIR + 1) as usize], 0x7F);
    assert_eq!(pin.registers.i2c.regs[IODIR as usize], 0x00);
}

#[test]
fn into_push_pull_output_clears_direction_bit() {
    let mut bus = EchoBus::new();
    bus.write(ADDRESS, IODIR, 0xFF).unwrap();
    let pin = Pin::new(A0, bus, ADDRESS);
    let pin = pin.into_push_pull_output().unwrap();
    assert_eq!(pin.registers.i2c.regs[IODIR as usize], 0xFE);
}

#[test]
fn output_drives_and_reads_back_its_level() {
    let mut pin = Pin::new_output(B7, EchoBus::new(), ADDRESS).unwrap();
    pin.set_high().unwrap();
    assert_eq!(pin.registers.i2c.regs[(GPIO + 1) as usize], 0x80);
    assert_eq!(pin.is_set_high(), Ok(true));
    assert_eq!(pin.is_set_low(), Ok(false));
    pin.set_low().unwrap();
    assert_eq!(pin.registers.i2c.regs[(GPIO + 1) as usize], 0x00);
    assert_eq!(pin.is_set_high(), Ok(false));
    assert_eq!(pin.is_set_low(), Ok(true));
}

#[test]
fn input_reads_port_level() {
    let mut bus = EchoBus::new();
    bus.write(ADDRESS, GPIO, 0b0010_0000).unwrap();
    let mut pin = Pin::new(A5, bus, ADDRESS);
    assert_eq!(pin.is_high(), Ok(true));
    assert_eq!(pin.is_low(), Ok(false));
    pin.registers.i2c.regs[GPIO as usize] = 0;
    assert_eq!(pin.is_high(), Ok(false));
    assert_eq!(pin.is_low(), Ok(true));
}

#[test]
fn level_sense_arming_writes_the_three_interrupt_registers() {
    let pin = Pin::new(A2, EchoBus::new(), ADDRESS);
    let pin = pin.enable_interrupt(Sense::Low).unwrap();
    assert_eq!(pin.registers.i2c.regs[INTCON as usize], 0b0000_0100);
    assert_eq!(pin.registers.i2c.regs[DEFVAL as usize], 0b0000_0100);
    assert_eq!(pin.registers.i2c.regs[GPINTEN as usize], 0b0000_0100);
}

#[test]
fn high_sense_arming_clears_the_default_compare_bit() {
    let mut bus = EchoBus::new();
    bus.write(ADDRESS, DEFVAL, 0xFF).unwrap();
    let pin = Pin::new(A2, bus, ADDRESS);
    let pin = pin.enable_interrupt(Sense::High).unwrap();
    assert_eq!(pin.registers.i2c.regs[INTCON as usize], 0b0000_0100);
    assert_eq!(pin.registers.i2c.regs[DEFVAL as usize], 0b1111_1011);
    assert_eq!(pin.registers.i2c.regs[GPINTEN as usize], 0b0000_0100);
}

#[test]
fn edge_sense_arming_clears_interrupt_control_and_skips_defval() {
    let mut bus = EchoBus::new();
    bus.write(ADDRESS, INTCON + 1, 0xFF).unwrap();
    bus.write(ADDRESS, DEFVAL + 1, 0x55).unwrap();
    let pin = Pin::new(B4, bus, ADDRESS);
    let pin = pin.enable_interrupt(Sense::Edge).unwrap();
    assert_eq!(pin.registers.i2c.regs[(INTCON + 1) as usize], 0b1110_1111);
    assert_eq!(pin.registers.i2c.regs[(DEFVAL + 1) as usize], 0x55);
    assert_eq!(pin.registers.i2c.regs[(GPINTEN + 1) as usize], 0b0001_0000);
}

#[test]
fn disable_interrupt_clears_only_the_enable_bit() {
    let pin = Pin::new(A2, EchoBus::new(), ADDRESS);
    let pin = pin.enable_interrupt(Sense::Low).unwrap();
    let pin = pin.disable_interrupt().unwrap();
    assert_eq!(pin.registers.i2c.regs[GPINTEN as usize], 0x00);
    assert_eq!(pin.registers.i2c.regs[INTCON as usize], 0b0000_0100);
    assert_eq!(pin.registers.i2c.regs[DEFVAL as usize], 0b0000_0100);
}
