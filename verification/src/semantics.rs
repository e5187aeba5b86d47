//! What each instruction does, as a function from state to state.
//!
//! Each operation is a chain of the primitive moves of [`crate::machine`].
//! The operand is always resolved in the state before the instruction; the
//! program counter is moved last, past the instruction, unless the
//! instruction redirects control. [`execute_spec`] selects the operation,
//! [`Machine::step`] fetches and decodes before it, and [`Machine::steps`]
//! repeats that.
use vstd::prelude::*;
use crate::arith::{low_byte, low_word, make_word, signed};
use crate::instruction::{decode_spec, AddressingMode, Instruction, OpCode};
use crate::machine::{bit_mask, Machine};
use crate::memory::{IRQ, RESET};
use crate::registers::{flag_of, pushed_status, StatusFlag};

verus! {

impl Machine {
    // Arithmetic: the sum or difference is taken in the integers, so that
    // carry and sign cannot be lost.

    pub open spec fn adc(self, mode: AddressingMode) -> Machine {
        self.add_with_carry(self.operand(mode)).advance(mode)
    }

    pub open spec fn sbc(self, mode: AddressingMode) -> Machine {
        self.subtract_with_borrow(self.operand(mode)).advance(mode)
    }

    // Logic with the accumulator: zero and negative follow the result.

    pub open spec fn and(self, mode: AddressingMode) -> Machine {
        let result = self.regs.a & self.operand(mode);
        self.set_a(result).set_zn(result).advance(mode)
    }

    pub open spec fn ora(self, mode: AddressingMode) -> Machine {
        let result = self.regs.a | self.operand(mode);
        self.set_a(result).set_zn(result).advance(mode)
    }

    pub open spec fn eor(self, mode: AddressingMode) -> Machine {
        let result = self.regs.a ^ self.operand(mode);
        self.set_a(result).set_zn(result).advance(mode)
    }

    // Shifts and rotates, on the accumulator or on memory. The bit that
    // leaves goes to carry; a rotate brings the old carry in at the other end.

    pub open spec fn asl(self, mode: AddressingMode) -> Machine {
        let operand = self.resolve(mode);
        let value = self.load(operand);
        let result = low_byte(2 * value);
        self.store(operand, result).set_flag(StatusFlag::Carry, value >= 0x80).set_zn(
            result,
        ).advance(mode)
    }

    pub open spec fn lsr(self, mode: AddressingMode) -> Machine {
        let operand = self.resolve(mode);
        let value = self.load(operand);
        let result = value / 2;
        self.store(operand, result).set_flag(StatusFlag::Carry, value % 2 == 1).set_zn(
            result,
        ).advance(mode)
    }

    pub open spec fn rol(self, mode: AddressingMode) -> Machine {
        let operand = self.resolve(mode);
        let value = self.load(operand);
        let result = low_byte(2 * value + self.carry());
        self.store(operand, result).set_flag(StatusFlag::Carry, value >= 0x80).set_zn(
            result,
        ).advance(mode)
    }

    pub open spec fn ror(self, mode: AddressingMode) -> Machine {
        let operand = self.resolve(mode);
        let value = self.load(operand);
        let result = low_byte(value / 2 + 0x80 * self.carry());
        self.store(operand, result).set_flag(StatusFlag::Carry, value % 2 == 1).set_zn(
            result,
        ).advance(mode)
    }

    // Increments and decrements wrap modulo 256 and leave carry alone.

    pub open spec fn inc(self, mode: AddressingMode) -> Machine {
        let operand = self.resolve(mode);
        let result = low_byte(self.load(operand) + 1);
        self.store(operand, result).set_zn(result).advance(mode)
    }

    pub open spec fn dec(self, mode: AddressingMode) -> Machine {
        let operand = self.resolve(mode);
        let result = low_byte(self.load(operand) - 1);
        self.store(operand, result).set_zn(result).advance(mode)
    }

    pub open spec fn inx(self, mode: AddressingMode) -> Machine {
        let result = low_byte(self.regs.x + 1);
        self.set_x(result).set_zn(result).advance(mode)
    }

    pub open spec fn iny(self, mode: AddressingMode) -> Machine {
        let result = low_byte(self.regs.y + 1);
        self.set_y(result).set_zn(result).advance(mode)
    }

    pub open spec fn dex(self, mode: AddressingMode) -> Machine {
        let result = low_byte(self.regs.x - 1);
        self.set_x(result).set_zn(result).advance(mode)
    }

    pub open spec fn dey(self, mode: AddressingMode) -> Machine {
        let result = low_byte(self.regs.y - 1);
        self.set_y(result).set_zn(result).advance(mode)
    }

    // Comparisons: a subtraction whose result is not kept.

    pub open spec fn cmp(self, mode: AddressingMode) -> Machine {
        self.compare(self.regs.a, self.operand(mode)).advance(mode)
    }

    pub open spec fn cpx(self, mode: AddressingMode) -> Machine {
        self.compare(self.regs.x, self.operand(mode)).advance(mode)
    }

    pub open spec fn cpy(self, mode: AddressingMode) -> Machine {
        self.compare(self.regs.y, self.operand(mode)).advance(mode)
    }

    // Loads set zero and negative; stores touch no flag.

    pub open spec fn lda(self, mode: AddressingMode) -> Machine {
        let value = self.operand(mode);
        self.set_a(value).set_zn(value).advance(mode)
    }

    pub open spec fn ldx(self, mode: AddressingMode) -> Machine {
        let value = self.operand(mode);
        self.set_x(value).set_zn(value).advance(mode)
    }

    pub open spec fn ldy(self, mode: AddressingMode) -> Machine {
        let value = self.operand(mode);
        self.set_y(value).set_zn(value).advance(mode)
    }

    pub open spec fn sta(self, mode: AddressingMode) -> Machine {
        self.store(self.resolve(mode), self.regs.a).advance(mode)
    }

    pub open spec fn stx(self, mode: AddressingMode) -> Machine {
        self.store(self.resolve(mode), self.regs.x).advance(mode)
    }

    pub open spec fn sty(self, mode: AddressingMode) -> Machine {
        self.store(self.resolve(mode), self.regs.y).advance(mode)
    }

    // Transfers set zero and negative, but for the one into the stack
    // pointer, which touches no flag.

    pub open spec fn tax(self, mode: AddressingMode) -> Machine {
        self.set_x(self.regs.a).set_zn(self.regs.a).advance(mode)
    }

    pub open spec fn tay(self, mode: AddressingMode) -> Machine {
        self.set_y(self.regs.a).set_zn(self.regs.a).advance(mode)
    }

    pub open spec fn txa(self, mode: AddressingMode) -> Machine {
        self.set_a(self.regs.x).set_zn(self.regs.x).advance(mode)
    }

    pub open spec fn tya(self, mode: AddressingMode) -> Machine {
        self.set_a(self.regs.y).set_zn(self.regs.y).advance(mode)
    }

    pub open spec fn tsx(self, mode: AddressingMode) -> Machine {
        self.set_x(self.regs.sp).set_zn(self.regs.sp).advance(mode)
    }

    pub open spec fn txs(self, mode: AddressingMode) -> Machine {
        self.set_sp(self.regs.x).advance(mode)
    }

    // Flag operations: one named flag, nothing else.

    pub open spec fn clc(self, mode: AddressingMode) -> Machine {
        self.set_flag(StatusFlag::Carry, false).advance(mode)
    }

    pub open spec fn sec(self, mode: AddressingMode) -> Machine {
        self.set_flag(StatusFlag::Carry, true).advance(mode)
    }

    pub open spec fn cli(self, mode: AddressingMode) -> Machine {
        self.set_flag(StatusFlag::NoInterrupts, false).advance(mode)
    }

    pub open spec fn sei(self, mode: AddressingMode) -> Machine {
        self.set_flag(StatusFlag::NoInterrupts, true).advance(mode)
    }

    pub open spec fn cld(self, mode: AddressingMode) -> Machine {
        self.set_flag(StatusFlag::Decimal, false).advance(mode)
    }

    pub open spec fn sed(self, mode: AddressingMode) -> Machine {
        self.set_flag(StatusFlag::Decimal, true).advance(mode)
    }

    pub open spec fn clv(self, mode: AddressingMode) -> Machine {
        self.set_flag(StatusFlag::Overflow, false).advance(mode)
    }

    // The stack.

    pub open spec fn pha(self, mode: AddressingMode) -> Machine {
        self.push(self.regs.a).advance(mode)
    }

    pub open spec fn php(self, mode: AddressingMode) -> Machine {
        self.push(pushed_status(self.regs.p)).advance(mode)
    }

    pub open spec fn pla(self, mode: AddressingMode) -> Machine {
        let value = self.pulled();
        self.pop().set_a(value).set_zn(value).advance(mode)
    }

    pub open spec fn plp(self, mode: AddressingMode) -> Machine {
        self.pop().restore_flags(self.pulled()).advance(mode)
    }

    // Control flow. A call pushes the address of its own last byte, high
    // byte first; a return pulls it and resumes at the byte after.

    pub open spec fn jmp(self, mode: AddressingMode) -> Machine {
        self.jump(self.resolve(mode).address())
    }

    /// The call. Its destination is read before anything is pushed.
    pub open spec fn jsr(self, mode: AddressingMode) -> Machine {
        let target = self.resolve(mode).address();
        let last = low_word(self.regs.pc + 2);
        self.push((last / 0x100) as u8).push((last % 0x100) as u8).jump(target)
    }

    pub open spec fn rts(self, mode: AddressingMode) -> Machine {
        let low = self.pulled();
        let high = self.pop().pulled();
        self.pop().pop().jump(low_word(make_word(low, high) + 1))
    }

    /// The software interrupt: pushes the address two bytes past the opcode
    /// and the status byte, sets interrupt disable, and continues at the
    /// address held in the interrupt-request vector.
    pub open spec fn brk(self, mode: AddressingMode) -> Machine {
        let resume = low_word(self.regs.pc + 2);
        let pushed = self.push((resume / 0x100) as u8).push((resume % 0x100) as u8).push(
            pushed_status(self.regs.p),
        );
        pushed.set_flag(StatusFlag::NoInterrupts, true).jump(pushed.word(IRQ))
    }

    /// The return from an interrupt: pulls the flags, then the program
    /// counter, and resumes exactly there.
    pub open spec fn rti(self, mode: AddressingMode) -> Machine {
        let status = self.pulled();
        let low = self.pop().pulled();
        let high = self.pop().pop().pulled();
        self.pop().restore_flags(status).pop().pop().jump(make_word(low, high))
    }

    pub open spec fn nop(self, mode: AddressingMode) -> Machine {
        self.advance(mode)
    }

    /// A conditional branch: to the resolved destination when `taken`, past
    /// the instruction when not.
    pub open spec fn branch(self, mode: AddressingMode, taken: bool) -> Machine {
        if taken {
            self.jump(self.resolve(mode).address())
        } else {
            self.advance(mode)
        }
    }

    pub open spec fn bcc(self, mode: AddressingMode) -> Machine {
        self.branch(mode, !self.flag(StatusFlag::Carry))
    }

    pub open spec fn bcs(self, mode: AddressingMode) -> Machine {
        self.branch(mode, self.flag(StatusFlag::Carry))
    }

    pub open spec fn bne(self, mode: AddressingMode) -> Machine {
        self.branch(mode, !self.flag(StatusFlag::Zero))
    }

    pub open spec fn beq(self, mode: AddressingMode) -> Machine {
        self.branch(mode, self.flag(StatusFlag::Zero))
    }

    pub open spec fn bpl(self, mode: AddressingMode) -> Machine {
        self.branch(mode, !self.flag(StatusFlag::Negative))
    }

    pub open spec fn bmi(self, mode: AddressingMode) -> Machine {
        self.branch(mode, self.flag(StatusFlag::Negative))
    }

    pub open spec fn bvc(self, mode: AddressingMode) -> Machine {
        self.branch(mode, !self.flag(StatusFlag::Overflow))
    }

    pub open spec fn bvs(self, mode: AddressingMode) -> Machine {
        self.branch(mode, self.flag(StatusFlag::Overflow))
    }

    /// The bit test: negative and overflow are bits 7 and 6 of the operand,
    /// zero says whether the operand and the accumulator share no bit. The
    /// accumulator stays.
    pub open spec fn bit(self, mode: AddressingMode) -> Machine {
        let value = self.operand(mode);
        self.set_flag(StatusFlag::Zero, self.regs.a & value == 0).set_flag(
            StatusFlag::Negative,
            flag_of(value, StatusFlag::Negative),
        ).set_flag(StatusFlag::Overflow, flag_of(value, StatusFlag::Overflow)).advance(mode)
    }

    // The bit instructions of the later variants.

    /// A branch on bit `bit` of a zero-page byte. The instruction has three
    /// bytes: the opcode, the zero-page address, and the signed displacement,
    /// which counts from the byte after the instruction. The branch is taken
    /// when the bit equals `set`.
    pub open spec fn bit_branch(self, bit: u8, set: bool) -> Machine {
        let value = self.byte(self.code(1) as u16);
        if (value & bit_mask(bit) != 0) == set {
            self.skip(3 + signed(self.code(2)))
        } else {
            self.skip(3)
        }
    }

    pub open spec fn bbr(self, mode: AddressingMode, bit: u8) -> Machine {
        self.bit_branch(bit, false)
    }

    pub open spec fn bbs(self, mode: AddressingMode, bit: u8) -> Machine {
        self.bit_branch(bit, true)
    }

    /// Resets bit `bit` of the operand; no flag changes.
    pub open spec fn rmb(self, mode: AddressingMode, bit: u8) -> Machine {
        let operand = self.resolve(mode);
        self.store(operand, self.load(operand) & !bit_mask(bit)).advance(mode)
    }

    /// Test and set bits: zero says whether the operand and the accumulator
    /// share no bit; then the accumulator's bits are set in the operand.
    pub open spec fn tsb(self, mode: AddressingMode) -> Machine {
        let operand = self.resolve(mode);
        let value = self.load(operand);
        self.store(operand, value | self.regs.a).set_flag(
            StatusFlag::Zero,
            self.regs.a & value == 0,
        ).advance(mode)
    }

    /// Test and reset bits: zero as for test and set; then the accumulator's
    /// bits are reset in the operand.
    pub open spec fn trb(self, mode: AddressingMode) -> Machine {
        let operand = self.resolve(mode);
        let value = self.load(operand);
        self.store(operand, value & !self.regs.a).set_flag(
            StatusFlag::Zero,
            self.regs.a & value == 0,
        ).advance(mode)
    }

    // The combined undocumented instructions: a read-modify-write on memory,
    // then an accumulator operation with what was written, as one step.

    /// Shift left, then or with the accumulator.
    pub open spec fn slo(self, mode: AddressingMode) -> Machine {
        let operand = self.resolve(mode);
        let value = self.load(operand);
        let shifted = low_byte(2 * value);
        let result = self.regs.a | shifted;
        self.store(operand, shifted).set_flag(StatusFlag::Carry, value >= 0x80).set_a(
            result,
        ).set_zn(result).advance(mode)
    }

    /// Rotate left, then and with the accumulator.
    pub open spec fn rla(self, mode: AddressingMode) -> Machine {
        let operand = self.resolve(mode);
        let value = self.load(operand);
        let rotated = low_byte(2 * value + self.carry());
        let result = self.regs.a & rotated;
        self.store(operand, rotated).set_flag(StatusFlag::Carry, value >= 0x80).set_a(
            result,
        ).set_zn(result).advance(mode)
    }

    /// Shift right, then exclusive-or with the accumulator.
    pub open spec fn sre(self, mode: AddressingMode) -> Machine {
        let operand = self.resolve(mode);
        let value = self.load(operand);
        let shifted = value / 2;
        let result = self.regs.a ^ shifted;
        self.store(operand, shifted).set_flag(StatusFlag::Carry, value % 2 == 1).set_a(
            result,
        ).set_zn(result).advance(mode)
    }

    /// Rotate right, then add to the accumulator with the carry that the
    /// rotate left.
    pub open spec fn rra(self, mode: AddressingMode) -> Machine {
        let operand = self.resolve(mode);
        let value = self.load(operand);
        let rotated = low_byte(value / 2 + 0x80 * self.carry());
        self.store(operand, rotated).set_flag(StatusFlag::Carry, value % 2 == 1).add_with_carry(
            rotated,
        ).advance(mode)
    }

    /// Stores the accumulator and index X, anded; no flag changes.
    pub open spec fn sax(self, mode: AddressingMode) -> Machine {
        self.store(self.resolve(mode), self.regs.a & self.regs.x).advance(mode)
    }

    /// Loads the accumulator and index X with the same value.
    pub open spec fn lax(self, mode: AddressingMode) -> Machine {
        let value = self.operand(mode);
        self.set_a(value).set_x(value).set_zn(value).advance(mode)
    }

    /// Decrement memory, then compare the accumulator with it.
    pub open spec fn dcp(self, mode: AddressingMode) -> Machine {
        let operand = self.resolve(mode);
        let result = low_byte(self.load(operand) - 1);
        self.store(operand, result).compare(self.regs.a, result).advance(mode)
    }

    /// Increment memory, then subtract it from the accumulator with borrow.
    pub open spec fn isb(self, mode: AddressingMode) -> Machine {
        let operand = self.resolve(mode);
        let result = low_byte(self.load(operand) + 1);
        self.store(operand, result).subtract_with_borrow(result).advance(mode)
    }

    // The engine.

    /// The state after a reset: the program counter holds the word of the
    /// reset vector.
    pub open spec fn reset(self) -> Machine {
        self.jump(self.word(RESET))
    }

    /// The opcode byte at the program counter.
    pub open spec fn opcode_byte(self) -> u8 {
        self.byte(self.regs.pc)
    }

    /// Whether the engine has halted: the byte at the program counter stands
    /// for no instruction.
    pub open spec fn halted(self) -> bool {
        decode_spec(self.opcode_byte()) is None
    }

    /// The state after one instruction is fetched, decoded and executed. A
    /// halted machine stays as it is.
    pub open spec fn step(self) -> Machine {
        match decode_spec(self.opcode_byte()) {
            Some(insn) => execute_spec(self, insn),
            None => self,
        }
    }

    /// The state after `n` steps.
    pub open spec fn steps(self, n: nat) -> Machine
        decreases n,
    {
        if n == 0 {
            self
        } else {
            self.step().steps((n - 1) as nat)
        }
    }
}

/// Whether `end` is where a run from `start` stops after `n` instructions:
/// no state before the `n`-th is halted, and the run ends there because the
/// machine has halted or because `n` has reached the limit.
pub open spec fn run_stops(start: Machine, n: nat, end: Machine, limit: nat) -> bool {
    &&& n <= limit
    &&& end == start.steps(n)
    &&& forall|k: nat| k < n ==> !(#[trigger] start.steps(k)).halted()
    &&& end.halted() || n == limit
}

/// The state after `insn` is executed in state `m`.
pub open spec fn execute_spec(m: Machine, insn: Instruction) -> Machine {
    let mode = insn.mode;
    match insn.opcode {
        OpCode::ADC => m.adc(mode),
        OpCode::AND => m.and(mode),
        OpCode::ASL => m.asl(mode),
        OpCode::BBR0 => m.bbr(mode, 0),
        OpCode::BBR1 => m.bbr(mode, 1),
        OpCode::BBR2 => m.bbr(mode, 2),
        OpCode::BBR3 => m.bbr(mode, 3),
        OpCode::BBR4 => m.bbr(mode, 4),
        OpCode::BBR5 => m.bbr(mode, 5),
        OpCode::BBR6 => m.bbr(mode, 6),
        OpCode::BBR7 => m.bbr(mode, 7),
        OpCode::BBS0 => m.bbs(mode, 0),
        OpCode::BBS1 => m.bbs(mode, 1),
        OpCode::BBS2 => m.bbs(mode, 2),
        OpCode::BBS3 => m.bbs(mode, 3),
        OpCode::BBS4 => m.bbs(mode, 4),
        OpCode::BBS5 => m.bbs(mode, 5),
        OpCode::BBS6 => m.bbs(mode, 6),
        OpCode::BBS7 => m.bbs(mode, 7),
        OpCode::BCC => m.bcc(mode),
        OpCode::BCS => m.bcs(mode),
        OpCode::BEQ => m.beq(mode),
        OpCode::BIT => m.bit(mode),
        OpCode::BMI => m.bmi(mode),
        OpCode::BNE => m.bne(mode),
        OpCode::BPL => m.bpl(mode),
        OpCode::BRK => m.brk(mode),
        OpCode::BVC => m.bvc(mode),
        OpCode::BVS => m.bvs(mode),
        OpCode::CLC => m.clc(mode),
        OpCode::CLD => m.cld(mode),
        OpCode::CLI => m.cli(mode),
        OpCode::CLV => m.clv(mode),
        OpCode::CMP => m.cmp(mode),
        OpCode::CPX => m.cpx(mode),
        OpCode::CPY => m.cpy(mode),
        OpCode::DCP => m.dcp(mode),
        OpCode::DEC => m.dec(mode),
        OpCode::DEX => m.dex(mode),
        OpCode::DEY => m.dey(mode),
        OpCode::EOR => m.eor(mode),
        OpCode::INC => m.inc(mode),
        OpCode::INX => m.inx(mode),
        OpCode::INY => m.iny(mode),
        OpCode::ISB => m.isb(mode),
        OpCode::JMP => m.jmp(mode),
        OpCode::JSR => m.jsr(mode),
        OpCode::LAX => m.lax(mode),
        OpCode::LDA => m.lda(mode),
        OpCode::LDX => m.ldx(mode),
        OpCode::LDY => m.ldy(mode),
        OpCode::LSR => m.lsr(mode),
        OpCode::NOP => m.nop(mode),
        OpCode::ORA => m.ora(mode),
        OpCode::PHA => m.pha(mode),
        OpCode::PHP => m.php(mode),
        OpCode::PLA => m.pla(mode),
        OpCode::PLP => m.plp(mode),
        OpCode::RLA => m.rla(mode),
        OpCode::RMB0 => m.rmb(mode, 0),
        OpCode::RMB1 => m.rmb(mode, 1),
        OpCode::RMB2 => m.rmb(mode, 2),
        OpCode::RMB3 => m.rmb(mode, 3),
        OpCode::RMB4 => m.rmb(mode, 4),
        OpCode::RMB5 => m.rmb(mode, 5),
        OpCode::RMB6 => m.rmb(mode, 6),
        OpCode::RMB7 => m.rmb(mode, 7),
        OpCode::ROL => m.rol(mode),
        OpCode::ROR => m.ror(mode),
        OpCode::RRA => m.rra(mode),
        OpCode::RTI => m.rti(mode),
        OpCode::RTS => m.rts(mode),
        OpCode::SAX => m.sax(mode),
        OpCode::SBC => m.sbc(mode),
        OpCode::SEC => m.sec(mode),
        OpCode::SED => m.sed(mode),
        OpCode::SEI => m.sei(mode),
        OpCode::SLO => m.slo(mode),
        OpCode::SRE => m.sre(mode),
        OpCode::STA => m.sta(mode),
        OpCode::STX => m.stx(mode),
        OpCode::STY => m.sty(mode),
        OpCode::TAX => m.tax(mode),
        OpCode::TAY => m.tay(mode),
        OpCode::TRB => m.trb(mode),
        OpCode::TSB => m.tsb(mode),
        OpCode::TSX => m.tsx(mode),
        OpCode::TXA => m.txa(mode),
        OpCode::TXS => m.txs(mode),
        OpCode::TYA => m.tya(mode),
    }
}

} // verus!
