//! An instruction-set emulator for an 8-bit accumulator processor of the 6502
//! family, extended with the bit-manipulation instructions of the 65C02.
//!
//! The crate has two halves. The pure half says what the processor is and
//! does: [`machine`] holds its state as a mathematical value, [`semantics`]
//! gives each instruction as a function from state to state, and
//! [`instruction`] lists the opcode table. The executable half, [`cpu`] with
//! its instruction handlers, [`memory`], [`registers`] and [`code`], is proved
//! to do exactly what the pure half says. [`laws`] holds what follows for every
//! state: round trips, invariants, and the flags of each family read out one
//! by one.
//!
//! Choices that the hardware leaves to an emulator:
//! - arithmetic is binary whatever the decimal flag says;
//! - the indirect jump reads its high byte from the page of its low byte;
//! - interrupts are not delivered: their vectors are named, and only the
//!   software interrupt uses one;
//! - a byte outside the opcode table halts the engine, which is how a
//!   program ends.
use vstd::prelude::*;

pub mod arith;
pub mod code;
pub mod cpu;
mod handlers;
pub mod instruction;
pub mod laws;
pub mod machine;
pub mod memory;
pub mod registers;
pub mod semantics;

verus! {

} // verus!
