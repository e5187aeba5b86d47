//! The instruction handlers: one method of [`Cpu`] for each operation.
//!
//! A handler takes the addressing mode of the instruction at the program
//! counter, which must be one that the opcode table gives the operation. It
//! resolves the operand, does the operation, writes the result back, updates
//! the flags through their names, and moves the program counter.
use vstd::prelude::*;
use crate::arith::{
    byte_add, byte_sub, high_byte, join_word, low_byte_of, shift_left, shift_right, word_add,
    word_add_signed,
};
use crate::cpu::Cpu;
use crate::instruction::{encoding, AddressingMode, OpCode};
use crate::memory::IRQ;
use crate::registers::{flag_in, StatusFlag};

verus! {

impl Cpu {
    /// Add to the accumulator, with carry.
    pub(crate) fn adc(&mut self, mode: AddressingMode)
        requires
            encoding(OpCode::ADC, mode) is Some,
        ensures
            final(self)@ == old(self)@.adc(mode),
    {
        let value = self.operand(mode);
        self.add_with_carry(value);
        self.advance(mode);
    }

    /// And with the accumulator.
    pub(crate) fn and(&mut self, mode: AddressingMode)
        requires
            encoding(OpCode::AND, mode) is Some,
        ensures
            final(self)@ == old(self)@.and(mode),
    {
        let result = self.registers.a & self.operand(mode);
        self.registers.a = result;
        self.set_zn(result);
        self.advance(mode);
    }

    /// Shift left by one place; bit 7 goes to carry.
    pub(crate) fn asl(&mut self, mode: AddressingMode)
        requires
            encoding(OpCode::ASL, mode) is Some,
        ensures
            final(self)@ == old(self)@.asl(mode),
    {
        let operand = self.resolve(mode);
        let value = self.load(operand);
        let result = shift_left(value, false);
        self.store(operand, result);
        self.set_flag(StatusFlag::Carry, value >= 0x80);
        self.set_zn(result);
        self.advance(mode);
    }

    /// Branches when bit `bit` of the zero-page operand is clear.
    pub(crate) fn bbr(&mut self, mode: AddressingMode, bit: u8)
        requires
            bit < 8,
        ensures
            final(self)@ == old(self)@.bbr(mode, bit),
    {
        self.bit_branch(bit, false);
    }

    /// Branches when bit `bit` of the zero-page operand is set.
    pub(crate) fn bbs(&mut self, mode: AddressingMode, bit: u8)
        requires
            bit < 8,
        ensures
            final(self)@ == old(self)@.bbs(mode, bit),
    {
        self.bit_branch(bit, true);
    }

    /// Branch when carry is clear.
    pub(crate) fn bcc(&mut self, mode: AddressingMode)
        requires
            encoding(OpCode::BCC, mode) is Some,
        ensures
            final(self)@ == old(self)@.bcc(mode),
    {
        let taken = !self.get_flag(StatusFlag::Carry);
        self.branch(mode, taken);
    }

    /// Branch when carry is set.
    pub(crate) fn bcs(&mut self, mode: AddressingMode)
        requires
            encoding(OpCode::BCS, mode) is Some,
        ensures
            final(self)@ == old(self)@.bcs(mode),
    {
        let taken = self.get_flag(StatusFlag::Carry);
        self.branch(mode, taken);
    }

    /// Branch when zero is set.
    pub(crate) fn beq(&mut self, mode: AddressingMode)
        requires
            encoding(OpCode::BEQ, mode) is Some,
        ensures
            final(self)@ == old(self)@.beq(mode),
    {
        let taken = self.get_flag(StatusFlag::Zero);
        self.branch(mode, taken);
    }

    /// Test the operand's bits against the accumulator, which stays.
    pub(crate) fn bit(&mut self, mode: AddressingMode)
        requires
            encoding(OpCode::BIT, mode) is Some,
        ensures
            final(self)@ == old(self)@.bit(mode),
    {
        let value = self.operand(mode);
        let shared = self.registers.a & value;
        self.set_flag(StatusFlag::Zero, shared == 0);
        self.set_flag(StatusFlag::Negative, flag_in(value, StatusFlag::Negative));
        self.set_flag(StatusFlag::Overflow, flag_in(value, StatusFlag::Overflow));
        self.advance(mode);
    }

    /// Branch when negative is set.
    pub(crate) fn bmi(&mut self, mode: AddressingMode)
        requires
            encoding(OpCode::BMI, mode) is Some,
        ensures
            final(self)@ == old(self)@.bmi(mode),
    {
        let taken = self.get_flag(StatusFlag::Negative);
        self.branch(mode, taken);
    }

    /// Branch when zero is clear.
    pub(crate) fn bne(&mut self, mode: AddressingMode)
        requires
            encoding(OpCode::BNE, mode) is Some,
        ensures
            final(self)@ == old(self)@.bne(mode),
    {
        let taken = !self.get_flag(StatusFlag::Zero);
        self.branch(mode, taken);
    }

    /// Branch when negative is clear.
    pub(crate) fn bpl(&mut self, mode: AddressingMode)
        requires
            encoding(OpCode::BPL, mode) is Some,
        ensures
            final(self)@ == old(self)@.bpl(mode),
    {
        let taken = !self.get_flag(StatusFlag::Negative);
        self.branch(mode, taken);
    }

    /// Software interrupt: push the return address and the status, then
    /// continue at the interrupt-request vector.
    pub(crate) fn brk(&mut self, mode: AddressingMode)
        requires
            encoding(OpCode::BRK, mode) is Some,
        ensures
            final(self)@ == old(self)@.brk(mode),
    {
        let resume = word_add(self.registers.pc, 2);
        self.push(high_byte(resume));
        self.push(low_byte_of(resume));
        let status = self.registers.status_for_push();
        self.push(status);
        self.set_flag(StatusFlag::NoInterrupts, true);
        self.registers.pc = self.memory.read_word(IRQ);
    }

    /// Branch when overflow is clear.
    pub(crate) fn bvc(&mut self, mode: AddressingMode)
        requires
            encoding(OpCode::BVC, mode) is Some,
        ensures
            final(self)@ == old(self)@.bvc(mode),
    {
        let taken = !self.get_flag(StatusFlag::Overflow);
        self.branch(mode, taken);
    }

    /// Branch when overflow is set.
    pub(crate) fn bvs(&mut self, mode: AddressingMode)
        requires
            encoding(OpCode::BVS, mode) is Some,
        ensures
            final(self)@ == old(self)@.bvs(mode),
    {
        let taken = self.get_flag(StatusFlag::Overflow);
        self.branch(mode, taken);
    }

    /// Clear carry.
    pub(crate) fn clc(&mut self, mode: AddressingMode)
        requires
            encoding(OpCode::CLC, mode) is Some,
        ensures
            final(self)@ == old(self)@.clc(mode),
    {
        self.set_flag(StatusFlag::Carry, false);
        self.advance(mode);
    }

    /// Clear decimal.
    pub(crate) fn cld(&mut self, mode: AddressingMode)
        requires
            encoding(OpCode::CLD, mode) is Some,
        ensures
            final(self)@ == old(self)@.cld(mode),
    {
        self.set_flag(StatusFlag::Decimal, false);
        self.advance(mode);
    }

    /// Clear interrupt disable.
    pub(crate) fn cli(&mut self, mode: AddressingMode)
        requires
            encoding(OpCode::CLI, mode) is Some,
        ensures
            final(self)@ == old(self)@.cli(mode),
    {
        self.set_flag(StatusFlag::NoInterrupts, false);
        self.advance(mode);
    }

    /// Clear overflow.
    pub(crate) fn clv(&mut self, mode: AddressingMode)
        requires
            encoding(OpCode::CLV, mode) is Some,
        ensures
            final(self)@ == old(self)@.clv(mode),
    {
        self.set_flag(StatusFlag::Overflow, false);
        self.advance(mode);
    }

    /// Compare the accumulator with the operand.
    pub(crate) fn cmp(&mut self, mode: AddressingMode)
        requires
            encoding(OpCode::CMP, mode) is Some,
        ensures
            final(self)@ == old(self)@.cmp(mode),
    {
        let value = self.operand(mode);
        let register = self.registers.a;
        self.compare(register, value);
        self.advance(mode);
    }

    /// Compare index X with the operand.
    pub(crate) fn cpx(&mut self, mode: AddressingMode)
        requires
            encoding(OpCode::CPX, mode) is Some,
        ensures
            final(self)@ == old(self)@.cpx(mode),
    {
        let value = self.operand(mode);
        let register = self.registers.x;
        self.compare(register, value);
        self.advance(mode);
    }

    /// Compare index Y with the operand.
    pub(crate) fn cpy(&mut self, mode: AddressingMode)
        requires
            encoding(OpCode::CPY, mode) is Some,
        ensures
            final(self)@ == old(self)@.cpy(mode),
    {
        let value = self.operand(mode);
        let register = self.registers.y;
        self.compare(register, value);
        self.advance(mode);
    }

    /// Decrement memory, then compare the accumulator with it.
    pub(crate) fn dcp(&mut self, mode: AddressingMode)
        requires
            encoding(OpCode::DCP, mode) is Some,
        ensures
            final(self)@ == old(self)@.dcp(mode),
    {
        let operand = self.resolve(mode);
        let result = byte_sub(self.load(operand), 1);
        let register = self.registers.a;
        self.store(operand, result);
        self.compare(register, result);
        self.advance(mode);
    }

    /// Decrement the operand.
    pub(crate) fn dec(&mut self, mode: AddressingMode)
        requires
            encoding(OpCode::DEC, mode) is Some,
        ensures
            final(self)@ == old(self)@.dec(mode),
    {
        let operand = self.resolve(mode);
        let result = byte_sub(self.load(operand), 1);
        self.store(operand, result);
        self.set_zn(result);
        self.advance(mode);
    }

    /// Decrement index X.
    pub(crate) fn dex(&mut self, mode: AddressingMode)
        requires
            encoding(OpCode::DEX, mode) is Some,
        ensures
            final(self)@ == old(self)@.dex(mode),
    {
        let result = byte_sub(self.registers.x, 1);
        self.registers.x = result;
        self.set_zn(result);
        self.advance(mode);
    }

    /// Decrement index Y.
    pub(crate) fn dey(&mut self, mode: AddressingMode)
        requires
            encoding(OpCode::DEY, mode) is Some,
        ensures
            final(self)@ == old(self)@.dey(mode),
    {
        let result = byte_sub(self.registers.y, 1);
        self.registers.y = result;
        self.set_zn(result);
        self.advance(mode);
    }

    /// Exclusive-or with the accumulator.
    pub(crate) fn eor(&mut self, mode: AddressingMode)
        requires
            encoding(OpCode::EOR, mode) is Some,
        ensures
            final(self)@ == old(self)@.eor(mode),
    {
        let result = self.registers.a ^ self.operand(mode);
        self.registers.a = result;
        self.set_zn(result);
        self.advance(mode);
    }

    /// Increment the operand.
    pub(crate) fn inc(&mut self, mode: AddressingMode)
        requires
            encoding(OpCode::INC, mode) is Some,
        ensures
            final(self)@ == old(self)@.inc(mode),
    {
        let operand = self.resolve(mode);
        let result = byte_add(self.load(operand), 1);
        self.store(operand, result);
        self.set_zn(result);
        self.advance(mode);
    }

    /// Increment index X.
    pub(crate) fn inx(&mut self, mode: AddressingMode)
        requires
            encoding(OpCode::INX, mode) is Some,
        ensures
            final(self)@ == old(self)@.inx(mode),
    {
        let result = byte_add(self.registers.x, 1);
        self.registers.x = result;
        self.set_zn(result);
        self.advance(mode);
    }

    /// Increment index Y.
    pub(crate) fn iny(&mut self, mode: AddressingMode)
        requires
            encoding(OpCode::INY, mode) is Some,
        ensures
            final(self)@ == old(self)@.iny(mode),
    {
        let result = byte_add(self.registers.y, 1);
        self.registers.y = result;
        self.set_zn(result);
        self.advance(mode);
    }

    /// Increment memory, then subtract it from the accumulator.
    pub(crate) fn isb(&mut self, mode: AddressingMode)
        requires
            encoding(OpCode::ISB, mode) is Some,
        ensures
            final(self)@ == old(self)@.isb(mode),
    {
        let operand = self.resolve(mode);
        let result = byte_add(self.load(operand), 1);
        self.store(operand, result);
        self.subtract_with_borrow(result);
        self.advance(mode);
    }

    /// Jump.
    pub(crate) fn jmp(&mut self, mode: AddressingMode)
        requires
            encoding(OpCode::JMP, mode) is Some,
        ensures
            final(self)@ == old(self)@.jmp(mode),
    {
        self.registers.pc = self.destination(mode);
    }

    /// Call: push the address of the call's last byte, then jump.
    pub(crate) fn jsr(&mut self, mode: AddressingMode)
        requires
            encoding(OpCode::JSR, mode) is Some,
        ensures
            final(self)@ == old(self)@.jsr(mode),
    {
        let target = self.destination(mode);
        let last = word_add(self.registers.pc, 2);
        self.push(high_byte(last));
        self.push(low_byte_of(last));
        self.registers.pc = target;
    }

    /// Load the accumulator and index X.
    pub(crate) fn lax(&mut self, mode: AddressingMode)
        requires
            encoding(OpCode::LAX, mode) is Some,
        ensures
            final(self)@ == old(self)@.lax(mode),
    {
        let value = self.operand(mode);
        self.registers.a = value;
        self.registers.x = value;
        self.set_zn(value);
        self.advance(mode);
    }

    /// Load the accumulator.
    pub(crate) fn lda(&mut self, mode: AddressingMode)
        requires
            encoding(OpCode::LDA, mode) is Some,
        ensures
            final(self)@ == old(self)@.lda(mode),
    {
        let value = self.operand(mode);
        self.registers.a = value;
        self.set_zn(value);
        self.advance(mode);
    }

    /// Load index X.
    pub(crate) fn ldx(&mut self, mode: AddressingMode)
        requires
            encoding(OpCode::LDX, mode) is Some,
        ensures
            final(self)@ == old(self)@.ldx(mode),
    {
        let value = self.operand(mode);
        self.registers.x = value;
        self.set_zn(value);
        self.advance(mode);
    }

    /// Load index Y.
    pub(crate) fn ldy(&mut self, mode: AddressingMode)
        requires
            encoding(OpCode::LDY, mode) is Some,
        ensures
            final(self)@ == old(self)@.ldy(mode),
    {
        let value = self.operand(mode);
        self.registers.y = value;
        self.set_zn(value);
        self.advance(mode);
    }

    /// Shift right by one place; bit 0 goes to carry.
    pub(crate) fn lsr(&mut self, mode: AddressingMode)
        requires
            encoding(OpCode::LSR, mode) is Some,
        ensures
            final(self)@ == old(self)@.lsr(mode),
    {
        let operand = self.resolve(mode);
        let value = self.load(operand);
        let result = shift_right(value, false);
        self.store(operand, result);
        self.set_flag(StatusFlag::Carry, value % 2 == 1);
        self.set_zn(result);
        self.advance(mode);
    }

    /// Do nothing.
    pub(crate) fn nop(&mut self, mode: AddressingMode)
        requires
            encoding(OpCode::NOP, mode) is Some,
        ensures
            final(self)@ == old(self)@.nop(mode),
    {
        self.advance(mode);
    }

    /// Or with the accumulator.
    pub(crate) fn ora(&mut self, mode: AddressingMode)
        requires
            encoding(OpCode::ORA, mode) is Some,
        ensures
            final(self)@ == old(self)@.ora(mode),
    {
        let result = self.registers.a | self.operand(mode);
        self.registers.a = result;
        self.set_zn(result);
        self.advance(mode);
    }

    /// Push the accumulator.
    pub(crate) fn pha(&mut self, mode: AddressingMode)
        requires
            encoding(OpCode::PHA, mode) is Some,
        ensures
            final(self)@ == old(self)@.pha(mode),
    {
        let value = self.registers.a;
        self.push(value);
        self.advance(mode);
    }

    /// Push the status.
    pub(crate) fn php(&mut self, mode: AddressingMode)
        requires
            encoding(OpCode::PHP, mode) is Some,
        ensures
            final(self)@ == old(self)@.php(mode),
    {
        let status = self.registers.status_for_push();
        self.push(status);
        self.advance(mode);
    }

    /// Pull the accumulator.
    pub(crate) fn pla(&mut self, mode: AddressingMode)
        requires
            encoding(OpCode::PLA, mode) is Some,
        ensures
            final(self)@ == old(self)@.pla(mode),
    {
        let value = self.pull();
        self.registers.a = value;
        self.set_zn(value);
        self.advance(mode);
    }

    /// Pull the status.
    pub(crate) fn plp(&mut self, mode: AddressingMode)
        requires
            encoding(OpCode::PLP, mode) is Some,
        ensures
            final(self)@ == old(self)@.plp(mode),
    {
        let status = self.pull();
        self.registers.restore_status(status);
        self.advance(mode);
    }

    /// Rotate memory left, then and the accumulator with it.
    pub(crate) fn rla(&mut self, mode: AddressingMode)
        requires
            encoding(OpCode::RLA, mode) is Some,
        ensures
            final(self)@ == old(self)@.rla(mode),
    {
        let operand = self.resolve(mode);
        let value = self.load(operand);
        let carry = self.get_flag(StatusFlag::Carry);
        let rotated = shift_left(value, carry);
        let result = self.registers.a & rotated;
        self.store(operand, rotated);
        self.set_flag(StatusFlag::Carry, value >= 0x80);
        self.registers.a = result;
        self.set_zn(result);
        self.advance(mode);
    }

    /// Reset bit 0 of the operand.
    pub(crate) fn rmb0(&mut self, mode: AddressingMode)
        requires
            encoding(OpCode::RMB0, mode) is Some,
        ensures
            final(self)@ == old(self)@.rmb(mode, 0),
    {
        self.reset_bit(mode, 0);
    }

    /// Reset bit 1 of the operand.
    pub(crate) fn rmb1(&mut self, mode: AddressingMode)
        requires
            encoding(OpCode::RMB1, mode) is Some,
        ensures
            final(self)@ == old(self)@.rmb(mode, 1),
    {
        self.reset_bit(mode, 1);
    }

    /// Reset bit 2 of the operand.
    pub(crate) fn rmb2(&mut self, mode: AddressingMode)
        requires
            encoding(OpCode::RMB2, mode) is Some,
        ensures
            final(self)@ == old(self)@.rmb(mode, 2),
    {
        self.reset_bit(mode, 2);
    }

    /// Reset bit 3 of the operand.
    pub(crate) fn rmb3(&mut self, mode: AddressingMode)
        requires
            encoding(OpCode::RMB3, mode) is Some,
        ensures
            final(self)@ == old(self)@.rmb(mode, 3),
    {
        self.reset_bit(mode, 3);
    }

    /// Reset bit 4 of the operand.
    pub(crate) fn rmb4(&mut self, mode: AddressingMode)
        requires
            encoding(OpCode::RMB4, mode) is Some,
        ensures
            final(self)@ == old(self)@.rmb(mode, 4),
    {
        self.reset_bit(mode, 4);
    }

    /// Reset bit 5 of the operand.
    pub(crate) fn rmb5(&mut self, mode: AddressingMode)
        requires
            encoding(OpCode::RMB5, mode) is Some,
        ensures
            final(self)@ == old(self)@.rmb(mode, 5),
    {
        self.reset_bit(mode, 5);
    }

    /// Reset bit 6 of the operand.
    pub(crate) fn rmb6(&mut self, mode: AddressingMode)
        requires
            encoding(OpCode::RMB6, mode) is Some,
        ensures
            final(self)@ == old(self)@.rmb(mode, 6),
    {
        self.reset_bit(mode, 6);
    }

    /// Reset bit 7 of the operand.
    pub(crate) fn rmb7(&mut self, mode: AddressingMode)
        requires
            encoding(OpCode::RMB7, mode) is Some,
        ensures
            final(self)@ == old(self)@.rmb(mode, 7),
    {
        self.reset_bit(mode, 7);
    }

    /// Rotate left through carry.
    pub(crate) fn rol(&mut self, mode: AddressingMode)
        requires
            encoding(OpCode::ROL, mode) is Some,
        ensures
            final(self)@ == old(self)@.rol(mode),
    {
        let operand = self.resolve(mode);
        let value = self.load(operand);
        let carry = self.get_flag(StatusFlag::Carry);
        let result = shift_left(value, carry);
        self.store(operand, result);
        self.set_flag(StatusFlag::Carry, value >= 0x80);
        self.set_zn(result);
        self.advance(mode);
    }

    /// Rotate right through carry.
    pub(crate) fn ror(&mut self, mode: AddressingMode)
        requires
            encoding(OpCode::ROR, mode) is Some,
        ensures
            final(self)@ == old(self)@.ror(mode),
    {
        let operand = self.resolve(mode);
        let value = self.load(operand);
        let carry = self.get_flag(StatusFlag::Carry);
        let result = shift_right(value, carry);
        self.store(operand, result);
        self.set_flag(StatusFlag::Carry, value % 2 == 1);
        self.set_zn(result);
        self.advance(mode);
    }

    /// Rotate memory right, then add it to the accumulator.
    pub(crate) fn rra(&mut self, mode: AddressingMode)
        requires
            encoding(OpCode::RRA, mode) is Some,
        ensures
            final(self)@ == old(self)@.rra(mode),
    {
        let operand = self.resolve(mode);
        let value = self.load(operand);
        let carry = self.get_flag(StatusFlag::Carry);
        let rotated = shift_right(value, carry);
        self.store(operand, rotated);
        self.set_flag(StatusFlag::Carry, value % 2 == 1);
        self.add_with_carry(rotated);
        self.advance(mode);
    }

    /// Return from an interrupt: pull the status, then the program counter.
    pub(crate) fn rti(&mut self, mode: AddressingMode)
        requires
            encoding(OpCode::RTI, mode) is Some,
        ensures
            final(self)@ == old(self)@.rti(mode),
    {
        let status = self.pull();
        self.registers.restore_status(status);
        let low = self.pull();
        let high = self.pull();
        self.registers.pc = join_word(low, high);
    }

    /// Return: pull the address of the call's last byte and resume after it.
    pub(crate) fn rts(&mut self, mode: AddressingMode)
        requires
            encoding(OpCode::RTS, mode) is Some,
        ensures
            final(self)@ == old(self)@.rts(mode),
    {
        let low = self.pull();
        let high = self.pull();
        self.registers.pc = word_add(join_word(low, high), 1);
    }

    /// Store the accumulator and index X, anded.
    pub(crate) fn sax(&mut self, mode: AddressingMode)
        requires
            encoding(OpCode::SAX, mode) is Some,
        ensures
            final(self)@ == old(self)@.sax(mode),
    {
        let operand = self.resolve(mode);
        let value = self.registers.a & self.registers.x;
        self.store(operand, value);
        self.advance(mode);
    }

    /// Subtract from the accumulator, with borrow.
    pub(crate) fn sbc(&mut self, mode: AddressingMode)
        requires
            encoding(OpCode::SBC, mode) is Some,
        ensures
            final(self)@ == old(self)@.sbc(mode),
    {
        let value = self.operand(mode);
        self.subtract_with_borrow(value);
        self.advance(mode);
    }

    /// Set carry.
    pub(crate) fn sec(&mut self, mode: AddressingMode)
        requires
            encoding(OpCode::SEC, mode) is Some,
        ensures
            final(self)@ == old(self)@.sec(mode),
    {
        self.set_flag(StatusFlag::Carry, true);
        self.advance(mode);
    }

    /// Set decimal.
    pub(crate) fn sed(&mut self, mode: AddressingMode)
        requires
            encoding(OpCode::SED, mode) is Some,
        ensures
            final(self)@ == old(self)@.sed(mode),
    {
        self.set_flag(StatusFlag::Decimal, true);
        self.advance(mode);
    }

    /// Set interrupt disable.
    pub(crate) fn sei(&mut self, mode: AddressingMode)
        requires
            encoding(OpCode::SEI, mode) is Some,
        ensures
            final(self)@ == old(self)@.sei(mode),
    {
        self.set_flag(StatusFlag::NoInterrupts, true);
        self.advance(mode);
    }

    /// Shift memory left, then or the accumulator with it.
    pub(crate) fn slo(&mut self, mode: AddressingMode)
        requires
            encoding(OpCode::SLO, mode) is Some,
        ensures
            final(self)@ == old(self)@.slo(mode),
    {
        let operand = self.resolve(mode);
        let value = self.load(operand);
        let shifted = shift_left(value, false);
        let result = self.registers.a | shifted;
        self.store(operand, shifted);
        self.set_flag(StatusFlag::Carry, value >= 0x80);
        self.registers.a = result;
        self.set_zn(result);
        self.advance(mode);
    }

    /// Shift memory right, then exclusive-or the accumulator with it.
    pub(crate) fn sre(&mut self, mode: AddressingMode)
        requires
            encoding(OpCode::SRE, mode) is Some,
        ensures
            final(self)@ == old(self)@.sre(mode),
    {
        let operand = self.resolve(mode);
        let value = self.load(operand);
        let shifted = shift_right(value, false);
        let result = self.registers.a ^ shifted;
        self.store(operand, shifted);
        self.set_flag(StatusFlag::Carry, value % 2 == 1);
        self.registers.a = result;
        self.set_zn(result);
        self.advance(mode);
    }

    /// Store the accumulator.
    pub(crate) fn sta(&mut self, mode: AddressingMode)
        requires
            encoding(OpCode::STA, mode) is Some,
        ensures
            final(self)@ == old(self)@.sta(mode),
    {
        let operand = self.resolve(mode);
        let value = self.registers.a;
        self.store(operand, value);
        self.advance(mode);
    }

    /// Store index X.
    pub(crate) fn stx(&mut self, mode: AddressingMode)
        requires
            encoding(OpCode::STX, mode) is Some,
        ensures
            final(self)@ == old(self)@.stx(mode),
    {
        let operand = self.resolve(mode);
        let value = self.registers.x;
        self.store(operand, value);
        self.advance(mode);
    }

    /// Store index Y.
    pub(crate) fn sty(&mut self, mode: AddressingMode)
        requires
            encoding(OpCode::STY, mode) is Some,
        ensures
            final(self)@ == old(self)@.sty(mode),
    {
        let operand = self.resolve(mode);
        let value = self.registers.y;
        self.store(operand, value);
        self.advance(mode);
    }

    /// Transfer the accumulator to index X.
    pub(crate) fn tax(&mut self, mode: AddressingMode)
        requires
            encoding(OpCode::TAX, mode) is Some,
        ensures
            final(self)@ == old(self)@.tax(mode),
    {
        let value = self.registers.a;
        self.registers.x = value;
        self.set_zn(value);
        self.advance(mode);
    }

    /// Transfer the accumulator to index Y.
    pub(crate) fn tay(&mut self, mode: AddressingMode)
        requires
            encoding(OpCode::TAY, mode) is Some,
        ensures
            final(self)@ == old(self)@.tay(mode),
    {
        let value = self.registers.a;
        self.registers.y = value;
        self.set_zn(value);
        self.advance(mode);
    }

    /// Test the operand against the accumulator, then reset the
    /// accumulator's bits in it.
    pub(crate) fn trb(&mut self, mode: AddressingMode)
        requires
            encoding(OpCode::TRB, mode) is Some,
        ensures
            final(self)@ == old(self)@.trb(mode),
    {
        let operand = self.resolve(mode);
        let value = self.load(operand);
        let a = self.registers.a;
        self.store(operand, value & !a);
        self.set_flag(StatusFlag::Zero, a & value == 0);
        self.advance(mode);
    }

    /// Test the operand against the accumulator, then set the
    /// accumulator's bits in it.
    pub(crate) fn tsb(&mut self, mode: AddressingMode)
        requires
            encoding(OpCode::TSB, mode) is Some,
        ensures
            final(self)@ == old(self)@.tsb(mode),
    {
        let operand = self.resolve(mode);
        let value = self.load(operand);
        let a = self.registers.a;
        self.store(operand, value | a);
        self.set_flag(StatusFlag::Zero, a & value == 0);
        self.advance(mode);
    }

    /// Transfer the stack pointer to index X.
    pub(crate) fn tsx(&mut self, mode: AddressingMode)
        requires
            encoding(OpCode::TSX, mode) is Some,
        ensures
            final(self)@ == old(self)@.tsx(mode),
    {
        let value = self.registers.sp;
        self.registers.x = value;
        self.set_zn(value);
        self.advance(mode);
    }

    /// Transfer index X to the accumulator.
    pub(crate) fn txa(&mut self, mode: AddressingMode)
        requires
            encoding(OpCode::TXA, mode) is Some,
        ensures
            final(self)@ == old(self)@.txa(mode),
    {
        let value = self.registers.x;
        self.registers.a = value;
        self.set_zn(value);
        self.advance(mode);
    }

    /// Transfer index X to the stack pointer; no flag changes.
    pub(crate) fn txs(&mut self, mode: AddressingMode)
        requires
            encoding(OpCode::TXS, mode) is Some,
        ensures
            final(self)@ == old(self)@.txs(mode),
    {
        let value = self.registers.x;
        self.registers.sp = value;
        self.advance(mode);
    }

    /// Transfer index Y to the accumulator.
    pub(crate) fn tya(&mut self, mode: AddressingMode)
        requires
            encoding(OpCode::TYA, mode) is Some,
        ensures
            final(self)@ == old(self)@.tya(mode),
    {
        let value = self.registers.y;
        self.registers.a = value;
        self.set_zn(value);
        self.advance(mode);
    }

    /// Takes a conditional branch, or passes it by.
    pub(crate) fn branch(&mut self, mode: AddressingMode, taken: bool)
        requires
            old(self)@.resolve(mode) is Address,
        ensures
            final(self)@ == old(self)@.branch(mode, taken),
    {
        if taken {
            self.registers.pc = self.destination(mode);
        } else {
            self.advance(mode);
        }
    }

    /// Branches on bit `bit` of the byte at the zero-page address that
    /// follows the opcode: taken when the bit equals `set`.
    pub(crate) fn bit_branch(&mut self, bit: u8, set: bool)
        requires
            bit < 8,
        ensures
            final(self)@ == old(self)@.bit_branch(bit, set),
    {
        let value = self.memory.read_byte(self.code(1) as u16);
        let displacement = self.code(2);
        self.skip(3);
        if ((value & (1u8 << bit)) != 0) == set {
            self.registers.pc = word_add_signed(self.registers.pc, displacement);
        }
    }

    /// Resets bit `bit` of the operand.
    pub(crate) fn reset_bit(&mut self, mode: AddressingMode, bit: u8)
        requires
            bit < 8,
            old(self)@.resolve(mode) is Address,
        ensures
            final(self)@ == old(self)@.rmb(mode, bit),
    {
        let operand = self.resolve(mode);
        let value = self.load(operand);
        self.store(operand, value & !(1u8 << bit));
        self.advance(mode);
    }
}

} // verus!
