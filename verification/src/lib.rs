//! Driver core for a sixteen-line GPIO expander reachable over a shared
//! byte-addressed register bus.
//!
//! Each physical line is an independently typed [`pin::Pin`] handle whose
//! type records its configuration (floating input, pulled-up input, output,
//! or armed interrupt source), so that only the register operations legal
//! for that configuration are callable, and so that the two reserved lines
//! (A7 and B7) can never leave the output configuration. Interrupts are
//! serviced centrally by a [`pin::interrupt::InterruptController`], which
//! caches per-bank flag and captured-level bytes so that individual lines
//! can be queried without further bus traffic.
//!
//! The transport itself is a platform concern: the driver speaks through the
//! [`bus::Bus`] trait and promises nothing about the bytes a device returns.

pub mod bus;
pub mod error;
pub mod pin;
pub mod registers;
