//! Interrupt servicing cache behaviour against scripted transports.

use mcp23017::bus::Bus;
use mcp23017::error::Error;
use mcp23017::pin::interrupt::{Interrupt, InterruptController, Sense};
use mcp23017::pin::input::Floating;
use mcp23017::pin::{Bank, Pin, A0, A1, B2};
use mcp23017::registers::{INTCAP, INTF};

/// A transport that answers each combined write-then-read from a script and
/// records which register every transaction addressed.
struct ScriptBus {
    reads: Vec<Result<u8, ()>>,
    next: usize,
    requested: Vec<u8>,
}

impl ScriptBus {
    fn new(reads: Vec<Result<u8, ()>>) -> ScriptBus {
        ScriptBus {
            reads,
            next: 0,
            requested: Vec::new(),
        }
    }
}

impl Bus for ScriptBus {
    type Error = ();

    fn write(&mut self, _address: u8, _register: u8, _value: u8) -> Result<(), ()> {
        Ok(())
    }

    fn write_read(&mut self, _address: u8, register: u8) -> Result<u8, ()> {
        self.requested.push(register);
        let reply = self.reads[self.next];
        self.next += 1;
        reply
    }
}

/// A transport that stores bytes by register address and echoes them back.
struct EchoBus {
    regs: [u8; 32],
}

impl EchoBus {
    fn new() -> EchoBus {
        EchoBus { regs: [0; 32] }
    }
}

impl Bus for EchoBus {
    type Error = ();

    fn write(&mut self, _address: u8, register: u8, value: u8) -> Result<(), ()> {
        self.regs[register as usize] = value;
        Ok(())
    }

    fn write_read(&mut self, _address: u8, register: u8) -> Result<u8, ()> {
        Ok(self.regs[register as usize])
    }
}

const ADDRESS: u8 = 0x20;

fn armed_pin<I: mcp23017::pin::InputPinId>(id: I) -> Pin<I, Interrupt<Floating>, EchoBus> {
    Pin::new(id, EchoBus::new(), ADDRESS)
        .enable_interrupt(Sense::High)
        .unwrap()
}

#[test]
fn serviced_line_triggers_once() {
    let bus = ScriptBus::new(vec![Ok(0b0000_0001), Ok(0b0000_0001)]);
    let mut controller = InterruptController::new(bus, ADDRESS);
    controller.interrupt(Bank::A).unwrap();
    let line_a0 = armed_pin(A0);
    assert_eq!(controller.triggered(&line_a0), Some(true));
    assert_eq!(controller.triggered(&line_a0), None);
}

#[test]
fn captured_low_level_is_reported_low() {
    let bus = ScriptBus::new(vec![Ok(0b0000_0010), Ok(0b0000_0000)]);
    let mut controller = InterruptController::new(bus, ADDRESS);
    controller.interrupt(Bank::A).unwrap();
    let line_a1 = armed_pin(A1);
    assert_eq!(controller.triggered(&line_a1), Some(false));
    assert_eq!(controller.triggered(&line_a1), None);
}

#[test]
fn two_services_leave_both_lines_pending_in_either_order() {
    let script = vec![
        Ok(0b0000_0001),
        Ok(0b0000_0001),
        Ok(0b0000_0010),
        Ok(0b0000_0010),
    ];
    let line_a0 = armed_pin(A0);
    let line_a1 = armed_pin(A1);

    let mut controller = InterruptController::new(ScriptBus::new(script.clone()), ADDRESS);
    controller.interrupt(Bank::A).unwrap();
    controller.interrupt(Bank::A).unwrap();
    assert_eq!(controller.triggered(&line_a0), Some(true));
    assert_eq!(controller.triggered(&line_a1), Some(true));

    let mut controller = InterruptController::new(ScriptBus::new(script), ADDRESS);
    controller.interrupt(Bank::A).unwrap();
    controller.interrupt(Bank::A).unwrap();
    assert_eq!(controller.triggered(&line_a1), Some(true));
    assert_eq!(controller.triggered(&line_a0), Some(true));
    assert_eq!(controller.triggered(&line_a0), None);
    assert_eq!(controller.triggered(&line_a1), None);
}

#[test]
fn second_service_preserves_levels_it_does_not_cover() {
    // line 0 captures high; a later pass for line 1 captures low everywhere
    let script = vec![
        Ok(0b0000_0001),
        Ok(0b0000_0001),
        Ok(0b0000_0010),
        Ok(0b0000_0000),
    ];
    let mut controller = InterruptController::new(ScriptBus::new(script), ADDRESS);
    controller.interrupt(Bank::A).unwrap();
    controller.interrupt(Bank::A).unwrap();
    let line_a0 = armed_pin(A0);
    let line_a1 = armed_pin(A1);
    assert_eq!(controller.triggered(&line_a0), Some(true));
    assert_eq!(controller.triggered(&line_a1), Some(false));
}

#[test]
fn repeated_flag_takes_the_fresh_capture() {
    let script = vec![
        Ok(0b0000_0001),
        Ok(0b0000_0001),
        Ok(0b0000_0001),
        Ok(0b0000_0000),
    ];
    let mut controller = InterruptController::new(ScriptBus::new(script), ADDRESS);
    controller.interrupt(Bank::A).unwrap();
    controller.interrupt(Bank::A).unwrap();
    let line_a0 = armed_pin(A0);
    assert_eq!(controller.triggered(&line_a0), Some(false));
}

#[test]
fn banks_are_serviced_and_consumed_independently() {
    let script = vec![Ok(0b0000_0001), Ok(0b0000_0001), Ok(0b0000_0100), Ok(0b0000_0100)];
    let mut controller = InterruptController::new(ScriptBus::new(script), ADDRESS);
    controller.interrupt(Bank::A).unwrap();
    controller.interrupt(Bank::B).unwrap();
    let line_a0 = armed_pin(A0);
    let line_b2 = armed_pin(B2);
    assert_eq!(controller.triggered(&line_a0), Some(true));
    assert_eq!(controller.triggered(&line_b2), Some(true));
    assert_eq!(controller.triggered(&line_b2), None);
}

#[test]
fn service_reads_the_bank_shifted_flag_and_capture_registers() {
    let bus = ScriptBus::new(vec![Ok(0), Ok(0), Ok(0), Ok(0)]);
    let mut controller = InterruptController::new(bus, ADDRESS);
    controller.interrupt(Bank::A).unwrap();
    controller.interrupt(Bank::B).unwrap();
    assert_eq!(
        controller.i2c.requested,
        vec![INTF, INTCAP, INTF + 1, INTCAP + 1]
    );
}

#[test]
fn service_failure_surfaces_error_and_leaves_cache_unchanged() {
    let bus = ScriptBus::new(vec![Ok(0b0000_0001), Err(())]);
    let mut controller = InterruptController::new(bus, ADDRESS);
    let result = controller.interrupt(Bank::A);
    assert!(matches!(result, Err(Error::Communication(()))));
    assert_eq!(controller.interrupt_flag, (0, 0));
    assert_eq!(controller.interrupt_capture, (0, 0));
    let line_a0 = armed_pin(A0);
    assert_eq!(controller.triggered(&line_a0), None);
}

#[test]
fn absorb_merges_flags_and_replaces_covered_captures() {
    let mut controller = InterruptController::new(EchoBus::new(), ADDRESS);
    controller.absorb(Bank::A, 0b0000_0101, 0b0000_0001);
    assert_eq!(controller.interrupt_flag, (0b0000_0101, 0));
    assert_eq!(controller.interrupt_capture, (0b0000_0001, 0));
    controller.absorb(Bank::A, 0b0000_0010, 0b0000_0010);
    assert_eq!(controller.interrupt_flag, (0b0000_0111, 0));
    assert_eq!(controller.interrupt_capture, (0b0000_0011, 0));
    controller.absorb(Bank::B, 0b1000_0000, 0b1000_0000);
    assert_eq!(controller.interrupt_flag, (0b0000_0111, 0b1000_0000));
    assert_eq!(controller.interrupt_capture, (0b0000_0011, 0b1000_0000));
}

#[test]
fn unserviced_line_reports_nothing() {
    let mut controller = InterruptController::new(EchoBus::new(), ADDRESS);
    let line_a0 = armed_pin(A0);
    assert_eq!(controller.triggered(&line_a0), None);
}
