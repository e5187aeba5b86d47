//! The processor: registers and memory, the operand resolver, and the
//! fetch-decode-execute engine.
//!
//! Every function here is proved against the pure description of
//! [`crate::machine`] and [`crate::semantics`]: the view of a [`Cpu`] is a
//! [`Machine`], and each operation leaves the processor in the state that the
//! description gives.
use vstd::prelude::*;
use vstd::pervasive::unreached;
use crate::arith::{byte_add, byte_sub, join_word, word_add, word_add_signed};
use crate::instruction::{decode, decode_spec, AddressingMode, Instruction, OpCode};
use crate::laws::{
    lemma_execute_keeps_invariants, lemma_steps_extend, lemma_steps_keep_invariants,
};
use crate::machine::{Machine, Operand};
use crate::memory::{Memory, RESET};
use crate::registers::{flag_of, Registers, StatusFlag};
use crate::semantics::{execute_spec, run_stops};

verus! {

pub struct Cpu {
    pub registers: Registers,
    pub memory: Memory,
}

impl View for Cpu {
    type V = Machine;

    open spec fn view(&self) -> Machine {
        Machine { regs: self.registers, mem: self.memory@ }
    }
}

impl Cpu {
    /// The memory of every processor has one byte for each address.
    pub proof fn lemma_view_wf(&self)
        ensures
            self@.wf(),
    {
        self.memory.lemma_size();
    }

    /// A processor with all registers zero but the flags (0x34) and the stack
    /// pointer (0xFF), and with all memory zero.
    pub fn new() -> (cpu: Cpu)
        ensures
            cpu@ == Machine::initial(),
            cpu@.wf(),
            cpu@.regs.wf(),
            forall|flag: StatusFlag|
                #[trigger] flag_of(cpu.registers.p, flag) == (flag == StatusFlag::NoInterrupts
                    || flag == StatusFlag::Break || flag == StatusFlag::Unused),
    {
        Cpu { registers: Registers::new(), memory: Memory::new() }
    }

    /// Loads the program counter from the reset vector.
    pub fn reset(&mut self)
        ensures
            final(self)@ == old(self)@.reset(),
    {
        self.registers.pc = self.memory.read_word(RESET);
    }

    /// Resets the processor, then executes instructions until it halts on a
    /// byte that stands for no instruction.
    ///
    /// A program that never halts is given up after `u64::MAX` instructions,
    /// with the state as it is then; [`Cpu::is_finished`] tells the two ends
    /// apart.
    pub fn run(&mut self)
        ensures
            exists|n: nat| run_stops(old(self)@.reset(), n, final(self)@, u64::MAX as nat),
            old(self)@.regs.wf() ==> final(self)@.regs.wf(),
    {
        self.reset();
        let ghost start = self@;
        proof {
            lemma_steps_keep_invariants(start, 0);
        }
        let mut count: u64 = 0;
        let mut running = true;
        while running && count < u64::MAX
            invariant
                start == old(self)@.reset(),
                self@ == start.steps(count as nat),
                forall|k: nat| k < count ==> !(#[trigger] start.steps(k)).halted(),
                !running ==> self@.halted(),
                start.regs.wf() ==> self@.regs.wf(),
            decreases u64::MAX - count, (if running { 1int } else { 0int }),
        {
            proof {
                lemma_steps_extend(start, count as nat);
            }
            running = self.step();
            if running {
                count = count + 1;
            }
        }
        assert(run_stops(start, count as nat, self@, u64::MAX as nat));
    }

    /// Whether the processor has halted: the byte at the program counter
    /// stands for no instruction.
    pub fn is_finished(&self) -> (finished: bool)
        ensures
            finished == self@.halted(),
    {
        decode(self.fetch_insn()).is_none()
    }

    /// Fetches, decodes and executes one instruction. Returns whether one was
    /// executed: a halted processor stays as it is.
    pub fn step(&mut self) -> (executed: bool)
        ensures
            final(self)@ == old(self)@.step(),
            executed == !old(self)@.halted(),
            old(self)@.regs.wf() ==> final(self)@.regs.wf(),
    {
        let bytecode = self.fetch_insn();
        match decode(bytecode) {
            Some(insn) => {
                self.execute_insn(insn);
                true
            },
            None => false,
        }
    }

    /// The opcode byte at the program counter.
    pub fn fetch_insn(&self) -> (byte: u8)
        ensures
            byte == self@.opcode_byte(),
    {
        self.memory.read_byte(self.registers.pc)
    }

    /// The instruction that `bytecode` stands for.
    pub fn decode_bytecode(&self, bytecode: u8) -> (insn: Instruction)
        requires
            decode_spec(bytecode) is Some,
        ensures
            Some(insn) == decode_spec(bytecode),
            insn.is_legal(),
    {
        match decode(bytecode) {
            Some(insn) => insn,
            None => unreached(),
        }
    }

    /// Executes `insn`, which must be an entry of the opcode table.
    pub fn execute_insn(&mut self, insn: Instruction)
        requires
            insn.is_legal(),
        ensures
            final(self)@ == execute_spec(old(self)@, insn),
            old(self)@.regs.wf() ==> final(self)@.regs.wf(),
    {
        proof {
            lemma_execute_keeps_invariants(self@, insn);
            // The ninety cases are named so that the solver splits on the operation
            // before anything else.
            assert(insn.opcode is ADC || insn.opcode is AND || insn.opcode is ASL
                || insn.opcode is BBR0 || insn.opcode is BBR1 || insn.opcode is BBR2
                || insn.opcode is BBR3 || insn.opcode is BBR4 || insn.opcode is BBR5
                || insn.opcode is BBR6 || insn.opcode is BBR7 || insn.opcode is BBS0
                || insn.opcode is BBS1 || insn.opcode is BBS2 || insn.opcode is BBS3
                || insn.opcode is BBS4 || insn.opcode is BBS5 || insn.opcode is BBS6
                || insn.opcode is BBS7 || insn.opcode is BCC || insn.opcode is BCS
                || insn.opcode is BEQ || insn.opcode is BIT || insn.opcode is BMI
                || insn.opcode is BNE || insn.opcode is BPL || insn.opcode is BRK
                || insn.opcode is BVC || insn.opcode is BVS || insn.opcode is CLC
                || insn.opcode is CLD || insn.opcode is CLI || insn.opcode is CLV
                || insn.opcode is CMP || insn.opcode is CPX || insn.opcode is CPY
                || insn.opcode is DCP || insn.opcode is DEC || insn.opcode is DEX
                || insn.opcode is DEY || insn.opcode is EOR || insn.opcode is INC
                || insn.opcode is INX || insn.opcode is INY || insn.opcode is ISB
                || insn.opcode is JMP || insn.opcode is JSR || insn.opcode is LAX
                || insn.opcode is LDA || insn.opcode is LDX || insn.opcode is LDY
                || insn.opcode is LSR || insn.opcode is NOP || insn.opcode is ORA
                || insn.opcode is PHA || insn.opcode is PHP || insn.opcode is PLA
                || insn.opcode is PLP || insn.opcode is RLA || insn.opcode is RMB0
                || insn.opcode is RMB1 || insn.opcode is RMB2 || insn.opcode is RMB3
                || insn.opcode is RMB4 || insn.opcode is RMB5 || insn.opcode is RMB6
                || insn.opcode is RMB7 || insn.opcode is ROL || insn.opcode is ROR
                || insn.opcode is RRA || insn.opcode is RTI || insn.opcode is RTS
                || insn.opcode is SAX || insn.opcode is SBC || insn.opcode is SEC
                || insn.opcode is SED || insn.opcode is SEI || insn.opcode is SLO
                || insn.opcode is SRE || insn.opcode is STA || insn.opcode is STX
                || insn.opcode is STY || insn.opcode is TAX || insn.opcode is TAY
                || insn.opcode is TRB || insn.opcode is TSB || insn.opcode is TSX
                || insn.opcode is TXA || insn.opcode is TXS || insn.opcode is TYA);
        }
        match insn.opcode {
            OpCode::ADC => self.adc(insn.mode),
            OpCode::AND => self.and(insn.mode),
            OpCode::ASL => self.asl(insn.mode),
            OpCode::BBR0 => self.bbr(insn.mode, 0),
            OpCode::BBR1 => self.bbr(insn.mode, 1),
            OpCode::BBR2 => self.bbr(insn.mode, 2),
            OpCode::BBR3 => self.bbr(insn.mode, 3),
            OpCode::BBR4 => self.bbr(insn.mode, 4),
            OpCode::BBR5 => self.bbr(insn.mode, 5),
            OpCode::BBR6 => self.bbr(insn.mode, 6),
            OpCode::BBR7 => self.bbr(insn.mode, 7),
            OpCode::BBS0 => self.bbs(insn.mode, 0),
            OpCode::BBS1 => self.bbs(insn.mode, 1),
            OpCode::BBS2 => self.bbs(insn.mode, 2),
            OpCode::BBS3 => self.bbs(insn.mode, 3),
            OpCode::BBS4 => self.bbs(insn.mode, 4),
            OpCode::BBS5 => self.bbs(insn.mode, 5),
            OpCode::BBS6 => self.bbs(insn.mode, 6),
            OpCode::BBS7 => self.bbs(insn.mode, 7),
            OpCode::BCC => self.bcc(insn.mode),
            OpCode::BCS => self.bcs(insn.mode),
            OpCode::BEQ => self.beq(insn.mode),
            OpCode::BIT => self.bit(insn.mode),
            OpCode::BMI => self.bmi(insn.mode),
            OpCode::BNE => self.bne(insn.mode),
            OpCode::BPL => self.bpl(insn.mode),
            OpCode::BRK => self.brk(insn.mode),
            OpCode::BVC => self.bvc(insn.mode),
            OpCode::BVS => self.bvs(insn.mode),
            OpCode::CLC => self.clc(insn.mode),
            OpCode::CLD => self.cld(insn.mode),
            OpCode::CLI => self.cli(insn.mode),
            OpCode::CLV => self.clv(insn.mode),
            OpCode::CMP => self.cmp(insn.mode),
            OpCode::CPX => self.cpx(insn.mode),
            OpCode::CPY => self.cpy(insn.mode),
            OpCode::DCP => self.dcp(insn.mode),
            OpCode::DEC => self.dec(insn.mode),
            OpCode::DEX => self.dex(insn.mode),
            OpCode::DEY => self.dey(insn.mode),
            OpCode::EOR => self.eor(insn.mode),
            OpCode::INC => self.inc(insn.mode),
            OpCode::INX => self.inx(insn.mode),
            OpCode::INY => self.iny(insn.mode),
            OpCode::ISB => self.isb(insn.mode),
            OpCode::JMP => self.jmp(insn.mode),
            OpCode::JSR => self.jsr(insn.mode),
            OpCode::LAX => self.lax(insn.mode),
            OpCode::LDA => self.lda(insn.mode),
            OpCode::LDX => self.ldx(insn.mode),
            OpCode::LDY => self.ldy(insn.mode),
            OpCode::LSR => self.lsr(insn.mode),
            OpCode::NOP => self.nop(insn.mode),
            OpCode::ORA => self.ora(insn.mode),
            OpCode::PHA => self.pha(insn.mode),
            OpCode::PHP => self.php(insn.mode),
            OpCode::PLA => self.pla(insn.mode),
            OpCode::PLP => self.plp(insn.mode),
            OpCode::RLA => self.rla(insn.mode),
            OpCode::RMB0 => self.rmb0(insn.mode),
            OpCode::RMB1 => self.rmb1(insn.mode),
            OpCode::RMB2 => self.rmb2(insn.mode),
            OpCode::RMB3 => self.rmb3(insn.mode),
            OpCode::RMB4 => self.rmb4(insn.mode),
            OpCode::RMB5 => self.rmb5(insn.mode),
            OpCode::RMB6 => self.rmb6(insn.mode),
            OpCode::RMB7 => self.rmb7(insn.mode),
            OpCode::ROL => self.rol(insn.mode),
            OpCode::ROR => self.ror(insn.mode),
            OpCode::RRA => self.rra(insn.mode),
            OpCode::RTI => self.rti(insn.mode),
            OpCode::RTS => self.rts(insn.mode),
            OpCode::SAX => self.sax(insn.mode),
            OpCode::SBC => self.sbc(insn.mode),
            OpCode::SEC => self.sec(insn.mode),
            OpCode::SED => self.sed(insn.mode),
            OpCode::SEI => self.sei(insn.mode),
            OpCode::SLO => self.slo(insn.mode),
            OpCode::SRE => self.sre(insn.mode),
            OpCode::STA => self.sta(insn.mode),
            OpCode::STX => self.stx(insn.mode),
            OpCode::STY => self.sty(insn.mode),
            OpCode::TAX => self.tax(insn.mode),
            OpCode::TAY => self.tay(insn.mode),
            OpCode::TRB => self.trb(insn.mode),
            OpCode::TSB => self.tsb(insn.mode),
            OpCode::TSX => self.tsx(insn.mode),
            OpCode::TXA => self.txa(insn.mode),
            OpCode::TXS => self.txs(insn.mode),
            OpCode::TYA => self.tya(insn.mode),
        }
    }

    /// The byte `offset` places after the opcode at the program counter.
    pub(crate) fn code(&self, offset: u16) -> (byte: u8)
        ensures
            byte == self@.code(offset as int),
    {
        self.memory.read_byte(word_add(self.registers.pc, offset))
    }

    /// The little-endian word that follows the opcode.
    pub(crate) fn code_word(&self) -> (word: u16)
        ensures
            word == self@.code_word(),
    {
        join_word(self.code(1), self.code(2))
    }

    /// The word held in the zero page at `ptr`, its high byte read from
    /// `ptr + 1` modulo 256.
    pub(crate) fn zero_page_word(&self, ptr: u8) -> (word: u16)
        ensures
            word == self@.zero_page_word(ptr),
    {
        let low = self.memory.read_byte(ptr as u16);
        let high = self.memory.read_byte(byte_add(ptr, 1) as u16);
        join_word(low, high)
    }

    /// The word that an indirect jump reads through `ptr`, its high byte read
    /// from the same page as its low byte.
    pub(crate) fn page_word(&self, ptr: u16) -> (word: u16)
        ensures
            word == self@.page_word(ptr),
    {
        let low = self.memory.read_byte(ptr);
        let next: u16 = (ptr / 0x100) * 0x100 + (ptr % 0x100 + 1) % 0x100;
        let high = self.memory.read_byte(next);
        join_word(low, high)
    }

    /// Resolves `mode` for the instruction at the program counter: to the
    /// accumulator, to an immediate value, or to an effective address.
    pub fn resolve(&self, mode: AddressingMode) -> (operand: Operand)
        ensures
            operand == self@.resolve(mode),
    {
        match mode {
            AddressingMode::Accumulator => Operand::Accumulator,
            AddressingMode::Implied | AddressingMode::Stack => Operand::Implied,
            AddressingMode::Immediate => Operand::Immediate(self.code(1)),
            AddressingMode::ZeroPage => Operand::Address(self.code(1) as u16),
            AddressingMode::ZeroPageX => Operand::Address(
                byte_add(self.code(1), self.registers.x) as u16,
            ),
            AddressingMode::ZeroPageY => Operand::Address(
                byte_add(self.code(1), self.registers.y) as u16,
            ),
            AddressingMode::Relative => {
                let after = word_add(self.registers.pc, 2);
                Operand::Address(word_add_signed(after, self.code(1)))
            },
            AddressingMode::Absolute => Operand::Address(self.code_word()),
            AddressingMode::AbsoluteX => Operand::Address(
                word_add(self.code_word(), self.registers.x as u16),
            ),
            AddressingMode::AbsoluteY => Operand::Address(
                word_add(self.code_word(), self.registers.y as u16),
            ),
            AddressingMode::Indirect | AddressingMode::AbsoluteIndirect => Operand::Address(
                self.page_word(self.code_word()),
            ),
            AddressingMode::AbsoluteIndexedIndirect => Operand::Address(
                self.memory.read_word(word_add(self.code_word(), self.registers.x as u16)),
            ),
            AddressingMode::IndexedIndirectX => Operand::Address(
                self.zero_page_word(byte_add(self.code(1), self.registers.x)),
            ),
            AddressingMode::IndirectIndexedY => Operand::Address(
                word_add(self.zero_page_word(self.code(1)), self.registers.y as u16),
            ),
        }
    }

    /// Reads the value of `operand`.
    pub(crate) fn load(&self, operand: Operand) -> (value: u8)
        requires
            operand.readable(),
        ensures
            value == self@.load(operand),
    {
        match operand {
            Operand::Accumulator => self.registers.a,
            Operand::Immediate(value) => value,
            Operand::Address(addr) => self.memory.read_byte(addr),
            Operand::Implied => unreached(),
        }
    }

    /// Reads the value of the operand that `mode` resolves to.
    pub(crate) fn operand(&self, mode: AddressingMode) -> (value: u8)
        requires
            self@.resolve(mode).readable(),
        ensures
            value == self@.operand(mode),
    {
        self.load(self.resolve(mode))
    }

    /// Writes `value` to `operand`.
    pub(crate) fn store(&mut self, operand: Operand, value: u8)
        requires
            operand.writable(),
        ensures
            final(self)@ == old(self)@.store(operand, value),
    {
        match operand {
            Operand::Accumulator => {
                self.registers.a = value;
            },
            Operand::Address(addr) => {
                self.memory.write_byte(addr, value);
            },
            _ => unreached(),
        }
    }

    /// The destination that `mode` resolves to.
    pub(crate) fn destination(&self, mode: AddressingMode) -> (target: u16)
        requires
            self@.resolve(mode) is Address,
        ensures
            target == self@.resolve(mode).address(),
    {
        match self.resolve(mode) {
            Operand::Address(addr) => addr,
            _ => unreached(),
        }
    }

    /// Moves the program counter past an instruction of `length` bytes.
    pub(crate) fn skip(&mut self, length: u16)
        ensures
            final(self)@ == old(self)@.skip(length as int),
    {
        self.registers.pc = word_add(self.registers.pc, length);
    }

    /// Moves the program counter past an instruction with mode `mode`.
    pub(crate) fn advance(&mut self, mode: AddressingMode)
        ensures
            final(self)@ == old(self)@.advance(mode),
    {
        self.skip(mode.length());
    }

    pub(crate) fn set_flag(&mut self, flag: StatusFlag, on: bool)
        ensures
            final(self)@ == old(self)@.set_flag(flag, on),
    {
        self.registers.set_flag(flag, on);
    }

    pub(crate) fn get_flag(&mut self, flag: StatusFlag) -> (on: bool)
        ensures
            on == old(self)@.flag(flag),
            *final(self) == *old(self),
    {
        self.registers.get_flag(flag)
    }

    /// The carry flag as a number.
    pub(crate) fn carry(&mut self) -> (carry: u8)
        ensures
            carry == old(self)@.carry(),
            *final(self) == *old(self),
    {
        if self.registers.get_flag(StatusFlag::Carry) {
            1
        } else {
            0
        }
    }

    /// Sets the zero and negative flags from `value`.
    pub(crate) fn set_zn(&mut self, value: u8)
        ensures
            final(self)@ == old(self)@.set_zn(value),
    {
        self.registers.set_flag(StatusFlag::Zero, value == 0);
        self.registers.set_flag(StatusFlag::Negative, value >= 0x80);
    }

    /// Pushes `value`: writes it at the stack pointer, which then goes down.
    pub(crate) fn push(&mut self, value: u8)
        ensures
            final(self)@ == old(self)@.push(value),
    {
        self.memory.write_byte(0x100 + self.registers.sp as u16, value);
        self.registers.sp = byte_sub(self.registers.sp, 1);
    }

    /// Pulls a value: the stack pointer goes up, then the byte there is read.
    pub(crate) fn pull(&mut self) -> (value: u8)
        ensures
            value == old(self)@.pulled(),
            final(self)@ == old(self)@.pop(),
    {
        self.registers.sp = byte_add(self.registers.sp, 1);
        self.memory.read_byte(0x100 + self.registers.sp as u16)
    }

    /// Adds `value` and the carry flag to the accumulator.
    pub(crate) fn add_with_carry(&mut self, value: u8)
        ensures
            final(self)@ == old(self)@.add_with_carry(value),
    {
        let a = self.registers.a;
        let carry = self.carry();
        let sum: u16 = a as u16 + value as u16 + carry as u16;
        let result: u8 = (sum % 0x100) as u8;
        // Overflow: the operands share a sign, and the result's sign differs
        // from theirs.
        let overflow = ((a >= 0x80) == (value >= 0x80)) && ((result >= 0x80) != (a >= 0x80));
        self.registers.a = result;
        self.set_zn(result);
        self.registers.set_flag(StatusFlag::Carry, sum > 0xFF);
        self.registers.set_flag(StatusFlag::Overflow, overflow);
    }

    /// Subtracts `value` and the borrow from the accumulator: the addition of
    /// the operand's complement.
    pub(crate) fn subtract_with_borrow(&mut self, value: u8)
        ensures
            final(self)@ == old(self)@.subtract_with_borrow(value),
    {
        self.add_with_carry(0xFF - value);
    }

    /// Sets the flags of the difference `register - value`.
    pub(crate) fn compare(&mut self, register: u8, value: u8)
        ensures
            final(self)@ == old(self)@.compare(register, value),
    {
        self.set_zn(byte_sub(register, value));
        self.registers.set_flag(StatusFlag::Carry, register >= value);
    }
}

} // verus!
