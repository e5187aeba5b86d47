//! The processor's state as a mathematical value, and the primitive moves on
//! it: operand resolution, loads and stores, the stack, the flags.
//!
//! A [`Machine`] is what a [`crate::cpu::Cpu`] is at one instant. The
//! functions here are pure: each returns the state after the move. The
//! instruction semantics of [`crate::semantics`] are chains of them.
use vstd::prelude::*;
use crate::arith::{low_byte, low_word, make_word, signed, signed_overflow};
use crate::instruction::AddressingMode;
use crate::memory::{byte_at, store_byte, word_at};
use crate::registers::{restored_status, with_flag, Registers, StatusFlag};

verus! {

/// What an addressing mode resolves to.
#[derive(Copy, Debug, Clone, PartialEq, Eq, Structural)]
pub enum Operand {
    /// The instruction names no operand.
    Implied,
    /// The operand is the accumulator.
    Accumulator,
    /// The operand is this value, taken from the instruction itself.
    Immediate(u8),
    /// The operand is the memory byte at this effective address; for a jump
    /// or a branch, the address is the destination.
    Address(u16),
}

impl Operand {
    /// Whether a value can be read from the operand.
    pub open spec fn readable(self) -> bool {
        !(self is Implied)
    }

    /// Whether a value can be written to the operand.
    pub open spec fn writable(self) -> bool {
        self is Accumulator || self is Address
    }

    /// The effective address, where the operand has one.
    pub open spec fn address(self) -> u16 {
        match self {
            Operand::Address(addr) => addr,
            _ => arbitrary(),
        }
    }
}

/// The address in the stack page that the stack pointer `sp` designates.
pub open spec fn stack_address(sp: u8) -> u16 {
    (0x100 + sp) as u16
}

/// The mask that selects bit `index` of a byte, for `index` in 0..=7.
pub open spec fn bit_mask(index: u8) -> u8 {
    1u8 << index
}

/// The state of the processor: its registers and its 65536 bytes of memory.
pub struct Machine {
    pub regs: Registers,
    pub mem: Seq<u8>,
}

impl Machine {
    /// The memory has exactly one byte for each 16-bit address.
    pub open spec fn wf(self) -> bool {
        self.mem.len() == 0x10000
    }

    /// The state at construction: registers at their defaults, memory zero.
    pub open spec fn initial() -> Machine {
        Machine {
            regs: Registers { a: 0, x: 0, y: 0, p: 0x34, sp: 0xFF, pc: 0 },
            mem: Seq::new(0x10000, |i: int| 0u8),
        }
    }

    pub open spec fn byte(self, addr: u16) -> u8 {
        byte_at(self.mem, addr)
    }

    pub open spec fn word(self, addr: u16) -> u16 {
        word_at(self.mem, addr)
    }

    /// The byte `offset` places after the opcode of the instruction at the
    /// program counter. The address wraps modulo 65536.
    pub open spec fn code(self, offset: int) -> u8 {
        self.byte(low_word(self.regs.pc + offset))
    }

    /// The little-endian word that follows the opcode.
    pub open spec fn code_word(self) -> u16 {
        make_word(self.code(1), self.code(2))
    }

    /// The word held in the zero page at `ptr`. Its high byte comes from
    /// `ptr + 1` modulo 256: a pointer at 0xFF has its high byte at 0x00.
    pub open spec fn zero_page_word(self, ptr: u8) -> u16 {
        make_word(self.byte(ptr as u16), self.byte(low_byte(ptr + 1) as u16))
    }

    /// The word that an indirect jump reads through `ptr`. The high byte
    /// comes from the same page as the low byte: after a pointer whose low
    /// byte is 0xFF it is read from the start of that page, not from the next
    /// page. This is what the NMOS 6502 does, and it is kept on purpose.
    pub open spec fn page_word(self, ptr: u16) -> u16 {
        make_word(
            self.byte(ptr),
            self.byte(((ptr / 0x100) * 0x100 + (ptr + 1) % 0x100) as u16),
        )
    }

    /// What `mode` resolves to for the instruction at the program counter.
    pub open spec fn resolve(self, mode: AddressingMode) -> Operand {
        match mode {
            AddressingMode::Accumulator => Operand::Accumulator,
            AddressingMode::Implied | AddressingMode::Stack => Operand::Implied,
            AddressingMode::Immediate => Operand::Immediate(self.code(1)),
            AddressingMode::ZeroPage => Operand::Address(self.code(1) as u16),
            AddressingMode::ZeroPageX => Operand::Address(
                low_byte(self.code(1) + self.regs.x) as u16,
            ),
            AddressingMode::ZeroPageY => Operand::Address(
                low_byte(self.code(1) + self.regs.y) as u16,
            ),
            AddressingMode::Relative => Operand::Address(
                low_word(self.regs.pc + 2 + signed(self.code(1))),
            ),
            AddressingMode::Absolute => Operand::Address(self.code_word()),
            AddressingMode::AbsoluteX => Operand::Address(
                low_word(self.code_word() + self.regs.x),
            ),
            AddressingMode::AbsoluteY => Operand::Address(
                low_word(self.code_word() + self.regs.y),
            ),
            AddressingMode::Indirect | AddressingMode::AbsoluteIndirect => Operand::Address(
                self.page_word(self.code_word()),
            ),
            AddressingMode::AbsoluteIndexedIndirect => Operand::Address(
                self.word(low_word(self.code_word() + self.regs.x)),
            ),
            AddressingMode::IndexedIndirectX => Operand::Address(
                self.zero_page_word(low_byte(self.code(1) + self.regs.x)),
            ),
            AddressingMode::IndirectIndexedY => Operand::Address(
                low_word(self.zero_page_word(self.code(1)) + self.regs.y),
            ),
        }
    }

    /// The value of `operand`.
    pub open spec fn load(self, operand: Operand) -> u8 {
        match operand {
            Operand::Accumulator => self.regs.a,
            Operand::Immediate(value) => value,
            Operand::Address(addr) => self.byte(addr),
            Operand::Implied => arbitrary(),
        }
    }

    /// The value of the operand that `mode` resolves to.
    pub open spec fn operand(self, mode: AddressingMode) -> u8 {
        self.load(self.resolve(mode))
    }

    /// The state after `value` is written to `operand`.
    pub open spec fn store(self, operand: Operand, value: u8) -> Machine {
        match operand {
            Operand::Accumulator => self.set_a(value),
            Operand::Address(addr) => self.poke(addr, value),
            _ => self,
        }
    }

    /// The state with the memory byte at `addr` replaced by `value`.
    pub open spec fn poke(self, addr: u16, value: u8) -> Machine {
        Machine { mem: store_byte(self.mem, addr, value), ..self }
    }

    pub open spec fn set_a(self, value: u8) -> Machine {
        Machine { regs: Registers { a: value, ..self.regs }, ..self }
    }

    pub open spec fn set_x(self, value: u8) -> Machine {
        Machine { regs: Registers { x: value, ..self.regs }, ..self }
    }

    pub open spec fn set_y(self, value: u8) -> Machine {
        Machine { regs: Registers { y: value, ..self.regs }, ..self }
    }

    pub open spec fn set_sp(self, value: u8) -> Machine {
        Machine { regs: Registers { sp: value, ..self.regs }, ..self }
    }

    /// The state with the program counter at `target`.
    pub open spec fn jump(self, target: u16) -> Machine {
        Machine { regs: Registers { pc: target, ..self.regs }, ..self }
    }

    /// The state with the program counter moved past an instruction of
    /// `length` bytes, wrapping modulo 65536.
    pub open spec fn skip(self, length: int) -> Machine {
        self.jump(low_word(self.regs.pc + length))
    }

    /// The state with the program counter moved past an instruction with
    /// addressing mode `mode`.
    pub open spec fn advance(self, mode: AddressingMode) -> Machine {
        self.skip(mode.length() as int)
    }

    pub open spec fn flag(self, flag: StatusFlag) -> bool {
        self.regs.flag(flag)
    }

    /// The carry flag as a number: 1 when set, 0 when clear.
    pub open spec fn carry(self) -> int {
        if self.flag(StatusFlag::Carry) {
            1
        } else {
            0
        }
    }

    pub open spec fn set_flag(self, flag: StatusFlag, on: bool) -> Machine {
        Machine { regs: Registers { p: with_flag(self.regs.p, flag, on), ..self.regs }, ..self }
    }

    /// The state with the zero and negative flags set from `value`: zero when
    /// it is 0, negative when its bit 7 is set.
    pub open spec fn set_zn(self, value: u8) -> Machine {
        self.set_flag(StatusFlag::Zero, value == 0).set_flag(StatusFlag::Negative, value >= 0x80)
    }

    /// The state after `value` is pushed: it is written where the stack
    /// pointer designates, then the stack pointer goes down by one, from 0x00
    /// to 0xFF without notice.
    pub open spec fn push(self, value: u8) -> Machine {
        self.poke(stack_address(self.regs.sp), value).set_sp(low_byte(self.regs.sp - 1))
    }

    /// The value that a pull returns: the byte just above where the stack
    /// pointer designates.
    pub open spec fn pulled(self) -> u8 {
        self.byte(stack_address(low_byte(self.regs.sp + 1)))
    }

    /// The state after a pull: the stack pointer has gone up by one, from
    /// 0xFF to 0x00 without notice.
    pub open spec fn pop(self) -> Machine {
        self.set_sp(low_byte(self.regs.sp + 1))
    }

    /// The state after the flags are restored from the pulled byte `value`.
    pub open spec fn restore_flags(self, value: u8) -> Machine {
        Machine { regs: Registers { p: restored_status(self.regs.p, value), ..self.regs }, ..self }
    }

    /// The state after `value` and the carry flag are added to the
    /// accumulator. The sum is taken in the integers: carry is set when it
    /// exceeds 255, overflow when the same sum of the signed readings cannot
    /// be held in a signed byte. Arithmetic is binary whatever the decimal
    /// flag says.
    pub open spec fn add_with_carry(self, value: u8) -> Machine {
        let sum = self.regs.a + value + self.carry();
        let result = low_byte(sum);
        self.set_a(result).set_zn(result).set_flag(StatusFlag::Carry, sum > 0xFF).set_flag(
            StatusFlag::Overflow,
            signed_overflow(signed(self.regs.a) + signed(value) + self.carry()),
        )
    }

    /// The state after `value` and the borrow are subtracted from the
    /// accumulator. The borrow is 1 when the carry flag is clear. Carry is
    /// set when no borrow was needed, overflow when the difference of the
    /// signed readings cannot be held in a signed byte. Arithmetic is binary
    /// whatever the decimal flag says.
    pub open spec fn subtract_with_borrow(self, value: u8) -> Machine {
        let borrow = 1 - self.carry();
        let difference = self.regs.a - value - borrow;
        let result = low_byte(difference);
        self.set_a(result).set_zn(result).set_flag(StatusFlag::Carry, difference >= 0).set_flag(
            StatusFlag::Overflow,
            signed_overflow(signed(self.regs.a) - signed(value) - borrow),
        )
    }

    /// The state after `register` is compared with `value`: the flags of the
    /// difference `register - value`, which is not kept.
    pub open spec fn compare(self, register: u8, value: u8) -> Machine {
        self.set_zn(low_byte(register - value)).set_flag(StatusFlag::Carry, register >= value)
    }
}

} // verus!
