//! What holds of the processor in every state: proved statements about the
//! flags, the stack, calls and branches, the halt, and the invariants that
//! every instruction keeps.
use vstd::prelude::*;
use crate::arith::{low_byte, low_word, signed, signed_overflow};
use crate::code::with_image;
use crate::instruction::{decode_spec, AddressingMode, Instruction, OpCode};
use crate::machine::{bit_mask, stack_address, Machine, Operand};
use crate::memory::IRQ;
use crate::registers::{
    flag_of, lemma_flags, lemma_initial_flags, pushed_status, restored_status, Registers,
    StatusFlag,
};
use crate::semantics::{execute_spec, run_stops};

verus! {

/// A byte is known by its eight flags.
pub proof fn lemma_flags_determine_byte(p: u8, q: u8)
    requires
        forall|flag: StatusFlag| flag_of(p, flag) == flag_of(q, flag),
    ensures
        p == q,
{
    assert(flag_of(p, StatusFlag::Carry) == flag_of(q, StatusFlag::Carry));
    assert(flag_of(p, StatusFlag::Zero) == flag_of(q, StatusFlag::Zero));
    assert(flag_of(p, StatusFlag::NoInterrupts) == flag_of(q, StatusFlag::NoInterrupts));
    assert(flag_of(p, StatusFlag::Decimal) == flag_of(q, StatusFlag::Decimal));
    assert(flag_of(p, StatusFlag::Break) == flag_of(q, StatusFlag::Break));
    assert(flag_of(p, StatusFlag::Unused) == flag_of(q, StatusFlag::Unused));
    assert(flag_of(p, StatusFlag::Overflow) == flag_of(q, StatusFlag::Overflow));
    assert(flag_of(p, StatusFlag::Negative) == flag_of(q, StatusFlag::Negative));
    assert(p == q) by (bit_vector)
        requires
            (p & 0x01 != 0) == (q & 0x01 != 0),
            (p & 0x02 != 0) == (q & 0x02 != 0),
            (p & 0x04 != 0) == (q & 0x04 != 0),
            (p & 0x08 != 0) == (q & 0x08 != 0),
            (p & 0x10 != 0) == (q & 0x10 != 0),
            (p & 0x20 != 0) == (q & 0x20 != 0),
            (p & 0x40 != 0) == (q & 0x40 != 0),
            (p & 0x80 != 0) == (q & 0x80 != 0),
    ;
}

/// A status byte on the stack has the break and unused bits set, and the
/// other six as they are in the register.
pub proof fn lemma_pushed_status(p: u8, flag: StatusFlag)
    ensures
        flag_of(pushed_status(p), flag) == (flag == StatusFlag::Break || flag == StatusFlag::Unused
            || flag_of(p, flag)),
{
    lemma_flags();
}

/// A pull of the flags takes six of them from the stack and leaves break and
/// unused as they are in the register.
pub proof fn lemma_restored_status(p: u8, value: u8, flag: StatusFlag)
    ensures
        flag_of(restored_status(p, value), flag) == (if flag == StatusFlag::Break || flag
            == StatusFlag::Unused {
            flag_of(p, flag)
        } else {
            flag_of(value, flag)
        }),
{
    lemma_flags();
}

/// The state at construction keeps both invariants, with interrupt
/// disable and break set and every other named flag clear.
pub proof fn lemma_initial_state(flag: StatusFlag)
    ensures
        Machine::initial().wf(),
        Machine::initial().regs.wf(),
        Machine::initial().flag(flag) == (flag == StatusFlag::NoInterrupts || flag
            == StatusFlag::Break || flag == StatusFlag::Unused),
{
    lemma_initial_flags(flag);
    lemma_initial_flags(StatusFlag::Unused);
}

/// Add with carry, read out flag by flag. The sum is that of the
/// accumulator, the operand and the carry, as integers. The accumulator gets
/// its low byte, carry says that it passed 255, zero and negative describe
/// the new accumulator, and overflow says that the operands had one sign and
/// the result has the other. Nothing else changes.
pub proof fn lemma_add_with_carry(m: Machine, value: u8, flag: StatusFlag)
    ensures
        ({
            let sum = m.regs.a + value + m.carry();
            let result = low_byte(sum);
            let after = m.add_with_carry(value);
            &&& after == (Machine { regs: Registers { a: result, p: after.regs.p, ..m.regs }, ..m })
            &&& after.flag(StatusFlag::Carry) == (sum > 0xFF)
            &&& after.flag(StatusFlag::Zero) == (result == 0)
            &&& after.flag(StatusFlag::Negative) == (result >= 0x80)
            &&& after.flag(StatusFlag::Overflow) == signed_overflow(
                signed(m.regs.a) + signed(value) + m.carry(),
            )
            &&& after.flag(StatusFlag::Overflow) == ((m.regs.a >= 0x80) == (value >= 0x80) && (
            result >= 0x80) != (m.regs.a >= 0x80))
            &&& flag == StatusFlag::NoInterrupts || flag == StatusFlag::Decimal || flag
                == StatusFlag::Break || flag == StatusFlag::Unused ==> after.flag(flag) == m.flag(
                flag,
            )
        }),
{
    lemma_flags();
}

/// Subtract with borrow, read out flag by flag. The difference is that of
/// the accumulator, the operand and the borrow, as integers; the borrow is 1
/// when carry is clear. The accumulator gets its low byte, carry says that no
/// borrow was needed, and overflow says that the signed difference does not
/// fit: the operands had different signs and the result has the operand's.
pub proof fn lemma_subtract_with_borrow(m: Machine, value: u8, flag: StatusFlag)
    ensures
        ({
            let difference = m.regs.a - value - (1 - m.carry());
            let result = low_byte(difference);
            let after = m.subtract_with_borrow(value);
            &&& after == (Machine { regs: Registers { a: result, p: after.regs.p, ..m.regs }, ..m })
            &&& after.flag(StatusFlag::Carry) == (difference >= 0)
            &&& after.flag(StatusFlag::Zero) == (result == 0)
            &&& after.flag(StatusFlag::Negative) == (result >= 0x80)
            &&& after.flag(StatusFlag::Overflow) == signed_overflow(
                signed(m.regs.a) - signed(value) - (1 - m.carry()),
            )
            &&& after.flag(StatusFlag::Overflow) == ((m.regs.a >= 0x80) != (value >= 0x80) && (
            result >= 0x80) == (value >= 0x80))
            &&& flag == StatusFlag::NoInterrupts || flag == StatusFlag::Decimal || flag
                == StatusFlag::Break || flag == StatusFlag::Unused ==> after.flag(flag) == m.flag(
                flag,
            )
        }),
{
    lemma_flags();
}

/// A comparison sets carry when the register is at least the operand, zero
/// when they are equal, and negative from bit 7 of their difference. The
/// registers and the memory stay.
pub proof fn lemma_compare(m: Machine, register: u8, value: u8, flag: StatusFlag)
    ensures
        ({
            let after = m.compare(register, value);
            &&& after == (Machine { regs: Registers { p: after.regs.p, ..m.regs }, ..m })
            &&& after.flag(StatusFlag::Carry) == (register >= value)
            &&& after.flag(StatusFlag::Zero) == (register == value)
            &&& after.flag(StatusFlag::Negative) == (low_byte(register - value) >= 0x80)
            &&& flag != StatusFlag::Carry && flag != StatusFlag::Zero && flag
                != StatusFlag::Negative ==> after.flag(flag) == m.flag(flag)
        }),
{
    lemma_flags();
}

/// A load puts the operand in the accumulator, sets zero when it is 0 and
/// negative when its bit 7 is set, and moves past the instruction. With the
/// immediate mode the operand is the byte after the opcode.
pub proof fn lemma_load_accumulator(m: Machine, mode: AddressingMode)
    ensures
        ({
            let value = m.operand(mode);
            let after = execute_spec(m, (Instruction { opcode: OpCode::LDA, mode }));
            &&& after.regs.a == value
            &&& after.flag(StatusFlag::Zero) == (value == 0)
            &&& after.flag(StatusFlag::Negative) == (value >= 0x80)
            &&& after.regs.pc == low_word(m.regs.pc + mode.length())
            &&& after.mem == m.mem
            &&& mode == AddressingMode::Immediate ==> value == m.code(1)
        }),
{
    lemma_flags();
}

/// A taken branch goes to the byte after the instruction plus the signed
/// displacement, modulo 65536; one not taken goes to the byte after the
/// instruction. Nothing but the program counter changes.
pub proof fn lemma_branch(m: Machine, taken: bool)
    ensures
        m.branch(AddressingMode::Relative, taken) == m.jump(
            low_word(
                m.regs.pc + 2 + (if taken {
                    signed(m.code(1))
                } else {
                    0
                }),
            ),
        ),
{
}

/// A branch on zero whose displacement is 0xFE, which is -2, goes back to
/// its own opcode when the zero flag is set: the state does not change.
pub proof fn lemma_branch_to_self(m: Machine)
    requires
        m.flag(StatusFlag::Zero),
        m.code(1) == 0xFE,
    ensures
        execute_spec(m, (Instruction { opcode: OpCode::BEQ, mode: AddressingMode::Relative }))
            == m,
{
}

/// What is pushed is what the next pull returns, and the pull leaves the
/// stack pointer where it was before the push, also when it wraps.
pub proof fn lemma_push_then_pull(m: Machine, value: u8)
    requires
        m.wf(),
    ensures
        m.push(value).pulled() == value,
        m.push(value).pop().regs == m.regs,
{
}

/// Push accumulator, then pull accumulator: the accumulator and the stack
/// pointer are what they were, whatever they were.
pub proof fn lemma_push_pull_round_trip(m: Machine)
    requires
        m.wf(),
    ensures
        ({
            let pushed = execute_spec(
                m,
                (Instruction { opcode: OpCode::PHA, mode: AddressingMode::Implied }),
            );
            let pulled = execute_spec(
                pushed,
                (Instruction { opcode: OpCode::PLA, mode: AddressingMode::Implied }),
            );
            &&& pushed.regs.sp == low_byte(m.regs.sp - 1)
            &&& pushed.byte(stack_address(m.regs.sp)) == m.regs.a
            &&& pulled.regs.a == m.regs.a
            &&& pulled.regs.sp == m.regs.sp
            &&& pulled.regs.pc == low_word(m.regs.pc + 2)
        }),
{
    lemma_push_then_pull(m, m.regs.a);
}

/// A call followed at once by a return resumes at the byte after the three
/// bytes of the call, with the stack pointer where it was.
pub proof fn lemma_call_then_return(m: Machine)
    requires
        m.wf(),
    ensures
        ({
            let called = execute_spec(
                m,
                (Instruction { opcode: OpCode::JSR, mode: AddressingMode::Absolute }),
            );
            let returned = execute_spec(
                called,
                (Instruction { opcode: OpCode::RTS, mode: AddressingMode::Implied }),
            );
            &&& called.regs.pc == m.code_word()
            &&& called.regs.sp == low_byte(m.regs.sp - 2)
            &&& returned.regs.pc == low_word(m.regs.pc + 3)
            &&& returned.regs.sp == m.regs.sp
        }),
{
    let last = low_word(m.regs.pc + 2);
    let high = (last / 0x100) as u8;
    let low = (last % 0x100) as u8;
    let one = m.push(high);
    let two = one.push(low);
    lemma_push_then_pull(one, low);
    lemma_push_then_pull(m, high);
    assert(two.pulled() == low);
    assert(two.pop().regs == one.regs);
    assert(two.pop().pulled() == high);
}

/// A halted machine stays as it is, however many steps it is given.
pub proof fn lemma_halted_stays(m: Machine, n: nat)
    requires
        m.halted(),
    ensures
        m.steps(n) == m,
    decreases n,
{
    if n > 0 {
        lemma_halted_stays(m, (n - 1) as nat);
    }
}

/// One more step extends a run that has not halted.
pub proof fn lemma_steps_extend(start: Machine, n: nat)
    ensures
        start.steps(n + 1) == start.steps(n).step(),
    decreases n,
{
    if n > 0 {
        lemma_steps_extend(start.step(), (n - 1) as nat);
        assert(start.steps(n) == start.step().steps((n - 1) as nat));
        assert(start.steps(n + 1) == start.step().steps(n));
    } else {
        assert(start.steps(1) == start.step().steps(0));
        assert(start.step().steps(0) == start.step());
    }
}

/// Steps add up.
pub proof fn lemma_steps_add(m: Machine, a: nat, b: nat)
    ensures
        m.steps(a + b) == m.steps(a).steps(b),
    decreases a,
{
    if a > 0 {
        lemma_steps_add(m.step(), (a - 1) as nat, b);
    }
}

/// An image is found where it was laid out: byte `i` at address 0x8000 + `i`,
/// and what lay outside the image is untouched.
pub proof fn lemma_image_in_place(mem: Seq<u8>, image: Seq<u8>, addr: u16)
    requires
        mem.len() == 0x10000,
        image.len() <= 0x8000,
    ensures
        with_image(mem, image).len() == 0x10000,
        with_image(mem, image)[addr as int] == (if 0x8000 <= addr < 0x8000 + image.len() {
            image[addr - 0x8000]
        } else {
            mem[addr as int]
        }),
{
}

/// A machine whose program counter is at the start of an image that begins
/// with a byte of no meaning is halted: it stops at the first fetch.
pub proof fn lemma_meaningless_image_halts(m: Machine, image: Seq<u8>)
    requires
        m.wf(),
        0 < image.len() <= 0x8000,
        decode_spec(image[0]) is None,
    ensures
        (Machine { mem: with_image(m.mem, image), ..m }).jump(0x8000).halted(),
        (Machine { mem: with_image(m.mem, image), ..m }).jump(0x8000).steps(1) == (Machine {
            mem: with_image(m.mem, image),
            ..m
        }).jump(0x8000),
{
    let loaded = (Machine { mem: with_image(m.mem, image), ..m }).jump(0x8000);
    lemma_image_in_place(m.mem, image, 0x8000);
    lemma_halted_stays(loaded, 1);
}

/// The zero-page modes never leave the zero page: an index that passes 0xFF
/// wraps to 0x00.
pub proof fn lemma_zero_page_stays(m: Machine, mode: AddressingMode)
    requires
        mode == AddressingMode::ZeroPage || mode == AddressingMode::ZeroPageX || mode
            == AddressingMode::ZeroPageY,
    ensures
        m.resolve(mode) is Address,
        m.resolve(mode).address() < 0x100,
{
}

/// Whether `opcode` redirects control: a branch, a jump, a call, a return
/// or a software interrupt. Such an instruction sets the program counter
/// itself.
pub open spec fn redirects(opcode: OpCode) -> bool {
    match opcode {
        OpCode::BBR0
        | OpCode::BBR1
        | OpCode::BBR2
        | OpCode::BBR3
        | OpCode::BBR4
        | OpCode::BBR5
        | OpCode::BBR6
        | OpCode::BBR7
        | OpCode::BBS0
        | OpCode::BBS1
        | OpCode::BBS2
        | OpCode::BBS3
        | OpCode::BBS4
        | OpCode::BBS5
        | OpCode::BBS6
        | OpCode::BBS7
        | OpCode::BCC
        | OpCode::BCS
        | OpCode::BEQ
        | OpCode::BMI
        | OpCode::BNE
        | OpCode::BPL
        | OpCode::BVC
        | OpCode::BVS
        | OpCode::BRK
        | OpCode::JMP
        | OpCode::JSR
        | OpCode::RTI
        | OpCode::RTS => true,
        _ => false,
    }
}

/// Every instruction keeps the two invariants of the state: the memory has
/// its 65536 bytes, and the unused flag is set.
pub proof fn lemma_execute_keeps_invariants(m: Machine, insn: Instruction)
    ensures
        m.wf() ==> execute_spec(m, insn).wf(),
        m.regs.wf() ==> execute_spec(m, insn).regs.wf(),
{
    lemma_flags();
    // The ninety cases are named so that the solver splits on the operation
    // before anything else.
    assert(insn.opcode is ADC || insn.opcode is AND || insn.opcode is ASL
        || insn.opcode is BBR0 || insn.opcode is BBR1 || insn.opcode is BBR2
        || insn.opcode is BBR3 || insn.opcode is BBR4 || insn.opcode is BBR5
        || insn.opcode is BBR6 || insn.opcode is BBR7 || insn.opcode is BBS0
        || insn.opcode is BBS1 || insn.opcode is BBS2 || insn.opcode is BBS3
        || insn.opcode is BBS4 || insn.opcode is BBS5 || insn.opcode is BBS6
        || insn.opcode is BBS7 || insn.opcode is BCC || insn.opcode is BCS
        || insn.opcode is BEQ || insn.opcode is BIT || insn.opcode is BMI
        || insn.opcode is BNE || insn.opcode is BPL || insn.opcode is BRK
        || insn.opcode is BVC || insn.opcode is BVS || insn.opcode is CLC
        || insn.opcode is CLD || insn.opcode is CLI || insn.opcode is CLV
        || insn.opcode is CMP || insn.opcode is CPX || insn.opcode is CPY
        || insn.opcode is DCP || insn.opcode is DEC || insn.opcode is DEX
        || insn.opcode is DEY || insn.opcode is EOR || insn.opcode is INC
        || insn.opcode is INX || insn.opcode is INY || insn.opcode is ISB
        || insn.opcode is JMP || insn.opcode is JSR || insn.opcode is LAX
        || insn.opcode is LDA || insn.opcode is LDX || insn.opcode is LDY
        || insn.opcode is LSR || insn.opcode is NOP || insn.opcode is ORA
        || insn.opcode is PHA || insn.opcode is PHP || insn.opcode is PLA
        || insn.opcode is PLP || insn.opcode is RLA || insn.opcode is RMB0
        || insn.opcode is RMB1 || insn.opcode is RMB2 || insn.opcode is RMB3
        || insn.opcode is RMB4 || insn.opcode is RMB5 || insn.opcode is RMB6
        || insn.opcode is RMB7 || insn.opcode is ROL || insn.opcode is ROR
        || insn.opcode is RRA || insn.opcode is RTI || insn.opcode is RTS
        || insn.opcode is SAX || insn.opcode is SBC || insn.opcode is SEC
        || insn.opcode is SED || insn.opcode is SEI || insn.opcode is SLO
        || insn.opcode is SRE || insn.opcode is STA || insn.opcode is STX
        || insn.opcode is STY || insn.opcode is TAX || insn.opcode is TAY
        || insn.opcode is TRB || insn.opcode is TSB || insn.opcode is TSX
        || insn.opcode is TXA || insn.opcode is TXS || insn.opcode is TYA);
}

/// So does every run of steps.
pub proof fn lemma_steps_keep_invariants(m: Machine, n: nat)
    ensures
        m.wf() ==> m.steps(n).wf(),
        m.regs.wf() ==> m.steps(n).regs.wf(),
    decreases n,
{
    if n > 0 {
        if let Some(insn) = decode_spec(m.opcode_byte()) {
            lemma_execute_keeps_invariants(m, insn);
        }
        lemma_steps_keep_invariants(m.step(), (n - 1) as nat);
    }
}

/// An instruction that does not redirect control moves the program counter
/// past itself: by the length of its addressing mode, modulo 65536.
pub proof fn lemma_execute_advances(m: Machine, insn: Instruction)
    requires
        !redirects(insn.opcode),
    ensures
        execute_spec(m, insn).regs.pc == low_word(m.regs.pc + insn.mode.length()),
{
    // The ninety cases are named so that the solver splits on the operation
    // before anything else.
    assert(insn.opcode is ADC || insn.opcode is AND || insn.opcode is ASL
        || insn.opcode is BBR0 || insn.opcode is BBR1 || insn.opcode is BBR2
        || insn.opcode is BBR3 || insn.opcode is BBR4 || insn.opcode is BBR5
        || insn.opcode is BBR6 || insn.opcode is BBR7 || insn.opcode is BBS0
        || insn.opcode is BBS1 || insn.opcode is BBS2 || insn.opcode is BBS3
        || insn.opcode is BBS4 || insn.opcode is BBS5 || insn.opcode is BBS6
        || insn.opcode is BBS7 || insn.opcode is BCC || insn.opcode is BCS
        || insn.opcode is BEQ || insn.opcode is BIT || insn.opcode is BMI
        || insn.opcode is BNE || insn.opcode is BPL || insn.opcode is BRK
        || insn.opcode is BVC || insn.opcode is BVS || insn.opcode is CLC
        || insn.opcode is CLD || insn.opcode is CLI || insn.opcode is CLV
        || insn.opcode is CMP || insn.opcode is CPX || insn.opcode is CPY
        || insn.opcode is DCP || insn.opcode is DEC || insn.opcode is DEX
        || insn.opcode is DEY || insn.opcode is EOR || insn.opcode is INC
        || insn.opcode is INX || insn.opcode is INY || insn.opcode is ISB
        || insn.opcode is JMP || insn.opcode is JSR || insn.opcode is LAX
        || insn.opcode is LDA || insn.opcode is LDX || insn.opcode is LDY
        || insn.opcode is LSR || insn.opcode is NOP || insn.opcode is ORA
        || insn.opcode is PHA || insn.opcode is PHP || insn.opcode is PLA
        || insn.opcode is PLP || insn.opcode is RLA || insn.opcode is RMB0
        || insn.opcode is RMB1 || insn.opcode is RMB2 || insn.opcode is RMB3
        || insn.opcode is RMB4 || insn.opcode is RMB5 || insn.opcode is RMB6
        || insn.opcode is RMB7 || insn.opcode is ROL || insn.opcode is ROR
        || insn.opcode is RRA || insn.opcode is RTI || insn.opcode is RTS
        || insn.opcode is SAX || insn.opcode is SBC || insn.opcode is SEC
        || insn.opcode is SED || insn.opcode is SEI || insn.opcode is SLO
        || insn.opcode is SRE || insn.opcode is STA || insn.opcode is STX
        || insn.opcode is STY || insn.opcode is TAX || insn.opcode is TAY
        || insn.opcode is TRB || insn.opcode is TSB || insn.opcode is TSX
        || insn.opcode is TXA || insn.opcode is TXS || insn.opcode is TYA);
}

/// A store touches no flag and no register: only the byte it writes.
pub proof fn lemma_store_keeps_flags(m: Machine, insn: Instruction)
    requires
        insn.is_legal(),
        insn.opcode == OpCode::STA || insn.opcode == OpCode::STX || insn.opcode == OpCode::STY
            || insn.opcode == OpCode::SAX,
    ensures
        execute_spec(m, insn).regs == m.advance(insn.mode).regs,
{
}

/// Increments and decrements leave the carry flag as it is.
pub proof fn lemma_increment_keeps_carry(m: Machine, insn: Instruction)
    requires
        insn.opcode == OpCode::INC || insn.opcode == OpCode::DEC || insn.opcode == OpCode::INX
            || insn.opcode == OpCode::INY || insn.opcode == OpCode::DEX || insn.opcode
            == OpCode::DEY,
    ensures
        execute_spec(m, insn).flag(StatusFlag::Carry) == m.flag(StatusFlag::Carry),
{
    lemma_flags();
}

/// The bit test and the comparisons change flags only: the accumulator, the
/// index registers, the stack pointer and the memory stay.
pub proof fn lemma_tests_change_flags_only(m: Machine, insn: Instruction)
    requires
        insn.opcode == OpCode::BIT || insn.opcode == OpCode::CMP || insn.opcode == OpCode::CPX
            || insn.opcode == OpCode::CPY,
    ensures
        ({
            let after = execute_spec(m, insn);
            after == (Machine {
                regs: Registers { p: after.regs.p, pc: after.regs.pc, ..m.regs },
                ..m
            })
        }),
{
}

/// The transfer into the stack pointer touches no flag.
pub proof fn lemma_transfer_to_stack_pointer(m: Machine, mode: AddressingMode)
    ensures
        execute_spec(m, (Instruction { opcode: OpCode::TXS, mode })) == m.set_sp(
            m.regs.x,
        ).advance(mode),
{
}

/// The three logic instructions put the and, the or or the exclusive or of
/// the accumulator and the operand in the accumulator, and set zero and
/// negative from it. Carry and overflow stay.
pub proof fn lemma_logic(m: Machine, mode: AddressingMode)
    ensures
        ({
            let value = m.operand(mode);
            let and = execute_spec(m, (Instruction { opcode: OpCode::AND, mode }));
            let ora = execute_spec(m, (Instruction { opcode: OpCode::ORA, mode }));
            let eor = execute_spec(m, (Instruction { opcode: OpCode::EOR, mode }));
            &&& and.regs.a == m.regs.a & value
            &&& ora.regs.a == m.regs.a | value
            &&& eor.regs.a == m.regs.a ^ value
            &&& and.flag(StatusFlag::Zero) == (and.regs.a == 0)
            &&& ora.flag(StatusFlag::Zero) == (ora.regs.a == 0)
            &&& eor.flag(StatusFlag::Zero) == (eor.regs.a == 0)
            &&& and.flag(StatusFlag::Negative) == (and.regs.a >= 0x80)
            &&& ora.flag(StatusFlag::Negative) == (ora.regs.a >= 0x80)
            &&& eor.flag(StatusFlag::Negative) == (eor.regs.a >= 0x80)
            &&& and.flag(StatusFlag::Carry) == m.flag(StatusFlag::Carry)
            &&& and.flag(StatusFlag::Overflow) == m.flag(StatusFlag::Overflow)
            &&& and.mem == m.mem && ora.mem == m.mem && eor.mem == m.mem
        }),
{
    lemma_flags();
}

/// A shift or a rotate of the accumulator, read out. Left: the value
/// doubles, bit 7 goes to carry. Right: the value halves, bit 0 goes to
/// carry. A rotate brings the old carry in at the free end; a shift brings
/// in zero.
pub proof fn lemma_shift_accumulator(m: Machine)
    ensures
        ({
            let mode = AddressingMode::Accumulator;
            let a = m.regs.a;
            let asl = execute_spec(m, (Instruction { opcode: OpCode::ASL, mode }));
            let lsr = execute_spec(m, (Instruction { opcode: OpCode::LSR, mode }));
            let rol = execute_spec(m, (Instruction { opcode: OpCode::ROL, mode }));
            let ror = execute_spec(m, (Instruction { opcode: OpCode::ROR, mode }));
            &&& asl.regs.a == low_byte(2 * a)
            &&& rol.regs.a == low_byte(2 * a + m.carry())
            &&& lsr.regs.a == a / 2
            &&& ror.regs.a == a / 2 + 0x80 * m.carry()
            &&& asl.flag(StatusFlag::Carry) == (a >= 0x80)
            &&& rol.flag(StatusFlag::Carry) == (a >= 0x80)
            &&& lsr.flag(StatusFlag::Carry) == (a % 2 == 1)
            &&& ror.flag(StatusFlag::Carry) == (a % 2 == 1)
            &&& asl.flag(StatusFlag::Zero) == (asl.regs.a == 0)
            &&& lsr.flag(StatusFlag::Negative) == false
            &&& ror.flag(StatusFlag::Negative) == m.flag(StatusFlag::Carry)
            &&& asl.mem == m.mem && lsr.mem == m.mem && rol.mem == m.mem && ror.mem == m.mem
        }),
{
    lemma_flags();
}

/// The carry chains through the rotates: a rotate left followed by a rotate
/// right gives back the accumulator and the carry.
pub proof fn lemma_rotate_round_trip(m: Machine)
    ensures
        ({
            let mode = AddressingMode::Accumulator;
            let left = execute_spec(m, (Instruction { opcode: OpCode::ROL, mode }));
            let back = execute_spec(left, (Instruction { opcode: OpCode::ROR, mode }));
            &&& back.regs.a == m.regs.a
            &&& back.flag(StatusFlag::Carry) == m.flag(StatusFlag::Carry)
            &&& back.regs.pc == low_word(m.regs.pc + 2)
            &&& back.mem == m.mem
        }),
{
    lemma_flags();
}

/// An increment followed by a decrement of the same operand gives the
/// operand back, also across the wrap from 0xFF to 0x00.
pub proof fn lemma_increment_then_decrement(value: u8)
    ensures
        low_byte(low_byte(value + 1) - 1) == value,
        low_byte(low_byte(value - 1) + 1) == value,
        low_byte(0xFFint + 1) == 0x00,
        low_byte(0x00int - 1) == 0xFF,
{
}

/// Each of the seven flag instructions changes its one flag and moves on.
pub proof fn lemma_flag_instructions(m: Machine, mode: AddressingMode, flag: StatusFlag)
    ensures
        execute_spec(m, (Instruction { opcode: OpCode::CLC, mode })) == m.set_flag(
            StatusFlag::Carry,
            false,
        ).advance(mode),
        execute_spec(m, (Instruction { opcode: OpCode::SEC, mode })) == m.set_flag(
            StatusFlag::Carry,
            true,
        ).advance(mode),
        execute_spec(m, (Instruction { opcode: OpCode::CLI, mode })) == m.set_flag(
            StatusFlag::NoInterrupts,
            false,
        ).advance(mode),
        execute_spec(m, (Instruction { opcode: OpCode::SEI, mode })) == m.set_flag(
            StatusFlag::NoInterrupts,
            true,
        ).advance(mode),
        execute_spec(m, (Instruction { opcode: OpCode::CLD, mode })) == m.set_flag(
            StatusFlag::Decimal,
            false,
        ).advance(mode),
        execute_spec(m, (Instruction { opcode: OpCode::SED, mode })) == m.set_flag(
            StatusFlag::Decimal,
            true,
        ).advance(mode),
        execute_spec(m, (Instruction { opcode: OpCode::CLV, mode })) == m.set_flag(
            StatusFlag::Overflow,
            false,
        ).advance(mode),
        m.set_flag(flag, true).flag(flag),
        !m.set_flag(flag, false).flag(flag),
        forall|other: StatusFlag|
            other != flag ==> m.set_flag(flag, true).flag(other) == m.flag(other)
                && m.set_flag(flag, false).flag(other) == m.flag(other),
{
    lemma_flags();
}

/// The bit test, read out: zero says that the accumulator and the operand
/// share no bit, negative and overflow are bits 7 and 6 of the operand.
pub proof fn lemma_bit_test(m: Machine, mode: AddressingMode)
    ensures
        ({
            let value = m.operand(mode);
            let after = execute_spec(m, (Instruction { opcode: OpCode::BIT, mode }));
            &&& after.flag(StatusFlag::Zero) == (m.regs.a & value == 0)
            &&& after.flag(StatusFlag::Negative) == (value & 0x80 != 0)
            &&& after.flag(StatusFlag::Overflow) == (value & 0x40 != 0)
            &&& after.flag(StatusFlag::Carry) == m.flag(StatusFlag::Carry)
            &&& after.regs.a == m.regs.a
            &&& after.mem == m.mem
        }),
{
    lemma_flags();
}

/// Push the status, then pull it: the flags are what they were.
pub proof fn lemma_status_round_trip(m: Machine)
    requires
        m.wf(),
    ensures
        ({
            let mode = AddressingMode::Implied;
            let pushed = execute_spec(m, (Instruction { opcode: OpCode::PHP, mode }));
            let pulled = execute_spec(pushed, (Instruction { opcode: OpCode::PLP, mode }));
            &&& pushed.byte(stack_address(m.regs.sp)) == pushed_status(m.regs.p)
            &&& pushed.regs.p == m.regs.p
            &&& pulled.regs == m.advance(mode).advance(mode).regs
        }),
{
    let mode = AddressingMode::Implied;
    let pushed = execute_spec(m, (Instruction { opcode: OpCode::PHP, mode }));
    let pulled = execute_spec(pushed, (Instruction { opcode: OpCode::PLP, mode }));
    lemma_push_then_pull(m, pushed_status(m.regs.p));
    assert(pushed.pulled() == pushed_status(m.regs.p));
    assert forall|flag: StatusFlag| flag_of(pulled.regs.p, flag) == flag_of(m.regs.p, flag) by {
        lemma_restored_status(m.regs.p, pushed_status(m.regs.p), flag);
        lemma_pushed_status(m.regs.p, flag);
    }
    lemma_flags_determine_byte(pulled.regs.p, m.regs.p);
}

/// A software interrupt followed at once by the return from it resumes two
/// bytes past the interrupt's opcode, with the flags and the stack pointer
/// as they were.
pub proof fn lemma_interrupt_then_return(m: Machine)
    requires
        m.wf(),
    ensures
        ({
            let mode = AddressingMode::Implied;
            let entered = execute_spec(m, (Instruction { opcode: OpCode::BRK, mode }));
            let returned = execute_spec(entered, (Instruction { opcode: OpCode::RTI, mode }));
            &&& entered.regs.pc == entered.word(IRQ)
            &&& entered.flag(StatusFlag::NoInterrupts)
            &&& entered.regs.sp == low_byte(m.regs.sp - 3)
            &&& returned.regs == m.skip(2).regs
        }),
{
    let mode = AddressingMode::Implied;
    let resume = low_word(m.regs.pc + 2);
    let high = (resume / 0x100) as u8;
    let low = (resume % 0x100) as u8;
    let status = pushed_status(m.regs.p);
    let one = m.push(high);
    let two = one.push(low);
    let three = two.push(status);
    let entered = execute_spec(m, (Instruction { opcode: OpCode::BRK, mode }));
    let returned = execute_spec(entered, (Instruction { opcode: OpCode::RTI, mode }));
    lemma_flags();
    lemma_push_then_pull(m, high);
    lemma_push_then_pull(one, low);
    lemma_push_then_pull(two, status);
    assert(entered.regs.sp == three.regs.sp && entered.mem == three.mem);
    assert(entered.pulled() == status);
    assert(entered.pop().regs.sp == two.regs.sp);
    assert(entered.pop().pulled() == low);
    assert(entered.pop().pop().regs.sp == one.regs.sp);
    assert(entered.pop().pop().pulled() == high);
    assert forall|flag: StatusFlag| flag_of(returned.regs.p, flag) == flag_of(m.regs.p, flag) by {
        lemma_restored_status(entered.regs.p, status, flag);
        lemma_pushed_status(m.regs.p, flag);
    }
    lemma_flags_determine_byte(returned.regs.p, m.regs.p);
}

/// Resetting bit `bit` of a byte clears that bit and leaves the other seven.
pub proof fn lemma_reset_bit(value: u8, bit: u8, other: u8)
    requires
        bit < 8,
        other < 8,
    ensures
        (value & !bit_mask(bit)) & bit_mask(bit) == 0,
        other != bit ==> (value & !bit_mask(bit)) & bit_mask(other) == value & bit_mask(other),
{
    assert((value & !(1u8 << bit)) & (1u8 << bit) == 0) by (bit_vector)
        requires
            bit < 8,
    ;
    assert(other != bit ==> (value & !(1u8 << bit)) & (1u8 << other) == value & (1u8 << other))
        by (bit_vector)
        requires
            bit < 8,
            other < 8,
    ;
}

/// The bit of a byte that a bit instruction names is the one of that weight:
/// bit `bit` is set exactly when the byte, divided by two `bit` times, is odd.
pub proof fn lemma_bit_mask(value: u8, bit: u8)
    requires
        bit < 8,
    ensures
        (value & bit_mask(bit) != 0) == ((value >> bit) % 2 == 1),
        bit_mask(0) == 0x01 && bit_mask(1) == 0x02 && bit_mask(2) == 0x04 && bit_mask(3) == 0x08,
        bit_mask(4) == 0x10 && bit_mask(5) == 0x20 && bit_mask(6) == 0x40 && bit_mask(7) == 0x80,
{
    assert((value & (1u8 << bit) != 0) == ((value >> bit) % 2 == 1)) by (bit_vector)
        requires
            bit < 8,
    ;
    assert((1u8 << 0u8) == 0x01 && (1u8 << 1u8) == 0x02 && (1u8 << 2u8) == 0x04 && (1u8 << 3u8)
        == 0x08 && (1u8 << 4u8) == 0x10 && (1u8 << 5u8) == 0x20 && (1u8 << 6u8) == 0x40 && (1u8
        << 7u8) == 0x80) by (bit_vector);
}

/// A branch on a memory bit has three bytes. Taken, it goes to the byte
/// after them plus the signed displacement in the third; not taken, to the
/// byte after them. Nothing but the program counter changes.
pub proof fn lemma_bit_branch(m: Machine, bit: u8, set: bool)
    ensures
        ({
            let value = m.byte(m.code(1) as u16);
            let taken = (value & bit_mask(bit) != 0) == set;
            m.bit_branch(bit, set) == m.jump(
                low_word(
                    m.regs.pc + 3 + (if taken {
                        signed(m.code(2))
                    } else {
                        0
                    }),
                ),
            )
        }),
{
}

/// Whether `opcode` writes its operand: the stores, the shifts and rotates,
/// the increments and decrements, the bit instructions on memory, and the
/// combined read-modify-write instructions.
pub open spec fn writes_operand(opcode: OpCode) -> bool {
    match opcode {
        OpCode::STA
        | OpCode::STX
        | OpCode::STY
        | OpCode::SAX
        | OpCode::ASL
        | OpCode::LSR
        | OpCode::ROL
        | OpCode::ROR
        | OpCode::INC
        | OpCode::DEC
        | OpCode::TSB
        | OpCode::TRB
        | OpCode::RMB0
        | OpCode::RMB1
        | OpCode::RMB2
        | OpCode::RMB3
        | OpCode::RMB4
        | OpCode::RMB5
        | OpCode::RMB6
        | OpCode::RMB7
        | OpCode::SLO
        | OpCode::RLA
        | OpCode::SRE
        | OpCode::RRA
        | OpCode::DCP
        | OpCode::ISB => true,
        _ => false,
    }
}

/// Whether `opcode` pushes to the stack.
pub open spec fn pushes(opcode: OpCode) -> bool {
    opcode == OpCode::PHA || opcode == OpCode::PHP || opcode == OpCode::JSR || opcode
        == OpCode::BRK
}

/// An instruction changes memory in two places at most: at the effective
/// address of its operand, if it is one that writes its operand, and in the
/// stack page, if it is one that pushes. Every other byte stays: a program
/// that does not address the ROM range does not change it.
pub proof fn lemma_execute_frame(m: Machine, insn: Instruction, addr: u16)
    requires
        m.wf(),
        execute_spec(m, insn).byte(addr) != m.byte(addr),
    ensures
        (writes_operand(insn.opcode) && m.resolve(insn.mode) == Operand::Address(addr)) || (pushes(
            insn.opcode,
        ) && 0x100 <= addr <= 0x1FF),
{
    // The ninety cases are named so that the solver splits on the operation
    // before anything else.
    assert(insn.opcode is ADC || insn.opcode is AND || insn.opcode is ASL
        || insn.opcode is BBR0 || insn.opcode is BBR1 || insn.opcode is BBR2
        || insn.opcode is BBR3 || insn.opcode is BBR4 || insn.opcode is BBR5
        || insn.opcode is BBR6 || insn.opcode is BBR7 || insn.opcode is BBS0
        || insn.opcode is BBS1 || insn.opcode is BBS2 || insn.opcode is BBS3
        || insn.opcode is BBS4 || insn.opcode is BBS5 || insn.opcode is BBS6
        || insn.opcode is BBS7 || insn.opcode is BCC || insn.opcode is BCS
        || insn.opcode is BEQ || insn.opcode is BIT || insn.opcode is BMI
        || insn.opcode is BNE || insn.opcode is BPL || insn.opcode is BRK
        || insn.opcode is BVC || insn.opcode is BVS || insn.opcode is CLC
        || insn.opcode is CLD || insn.opcode is CLI || insn.opcode is CLV
        || insn.opcode is CMP || insn.opcode is CPX || insn.opcode is CPY
        || insn.opcode is DCP || insn.opcode is DEC || insn.opcode is DEX
        || insn.opcode is DEY || insn.opcode is EOR || insn.opcode is INC
        || insn.opcode is INX || insn.opcode is INY || insn.opcode is ISB
        || insn.opcode is JMP || insn.opcode is JSR || insn.opcode is LAX
        || insn.opcode is LDA || insn.opcode is LDX || insn.opcode is LDY
        || insn.opcode is LSR || insn.opcode is NOP || insn.opcode is ORA
        || insn.opcode is PHA || insn.opcode is PHP || insn.opcode is PLA
        || insn.opcode is PLP || insn.opcode is RLA || insn.opcode is RMB0
        || insn.opcode is RMB1 || insn.opcode is RMB2 || insn.opcode is RMB3
        || insn.opcode is RMB4 || insn.opcode is RMB5 || insn.opcode is RMB6
        || insn.opcode is RMB7 || insn.opcode is ROL || insn.opcode is ROR
        || insn.opcode is RRA || insn.opcode is RTI || insn.opcode is RTS
        || insn.opcode is SAX || insn.opcode is SBC || insn.opcode is SEC
        || insn.opcode is SED || insn.opcode is SEI || insn.opcode is SLO
        || insn.opcode is SRE || insn.opcode is STA || insn.opcode is STX
        || insn.opcode is STY || insn.opcode is TAX || insn.opcode is TAY
        || insn.opcode is TRB || insn.opcode is TSB || insn.opcode is TSX
        || insn.opcode is TXA || insn.opcode is TXS || insn.opcode is TYA);
}

/// Where a run stops is determined: two runs from one state, under one
/// limit, end after the same number of instructions in the same state.
pub proof fn lemma_run_is_determined(
    start: Machine,
    limit: nat,
    count: nat,
    end: Machine,
    other_count: nat,
    other_end: Machine,
)
    requires
        run_stops(start, count, end, limit),
        run_stops(start, other_count, other_end, limit),
    ensures
        count == other_count,
        end == other_end,
{
    if count < other_count {
        assert(!start.steps(count).halted());
    }
    if other_count < count {
        assert(!start.steps(other_count).halted());
    }
}

/// A run from a halted state stops at once, in that state.
pub proof fn lemma_run_of_halted(start: Machine, limit: nat, n: nat, end: Machine)
    requires
        start.halted(),
        run_stops(start, n, end, limit),
    ensures
        n == 0,
        end == start,
{
    assert(start.steps(0) == start);
}

} // verus!
