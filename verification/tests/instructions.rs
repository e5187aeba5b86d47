use volve::cpu::Cpu;
use volve::instruction::{AddressingMode, Instruction, OpCode};
use volve::registers::StatusFlag;

fn cpu_at(origin: u16, program: &[u8]) -> Cpu {
    let mut cpu = Cpu::new();
    for (offset, byte) in program.iter().enumerate() {
        cpu.memory.write_byte(origin.wrapping_add(offset as u16), *byte);
    }
    cpu.registers.pc = origin;
    cpu
}

fn run_one(a: u8, p: u8, program: &[u8]) -> Cpu {
    let mut cpu = cpu_at(0x8000, program);
    cpu.registers.a = a;
    cpu.registers.p = p;
    assert!(cpu.step());
    cpu
}

#[test]
fn adc_signed_overflow() {
    let mut cpu = run_one(0x50, 0x34, &[0x69, 0x50]);
    assert_eq!(cpu.registers.a, 0xA0);
    assert!(cpu.registers.get_flag(StatusFlag::Negative));
    assert!(cpu.registers.get_flag(StatusFlag::Overflow));
    assert!(!cpu.registers.get_flag(StatusFlag::Carry));
    assert!(!cpu.registers.get_flag(StatusFlag::Zero));
    assert_eq!(cpu.registers.p, 0xF4);
    assert_eq!(cpu.registers.pc, 0x8002);
}

#[test]
fn sbc_with_borrow_out() {
    let mut cpu = run_one(0x00, 0x35, &[0xE9, 0x01]);
    assert_eq!(cpu.registers.a, 0xFF);
    assert!(!cpu.registers.get_flag(StatusFlag::Carry));
    assert!(cpu.registers.get_flag(StatusFlag::Negative));
    assert!(!cpu.registers.get_flag(StatusFlag::Overflow));
    assert_eq!(cpu.registers.p, 0xB4);
}

#[test]
fn lda_immediate_zero() {
    let mut cpu = run_one(0x55, 0x34, &[0xA9, 0x00]);
    assert_eq!(cpu.registers.a, 0x00);
    assert!(cpu.registers.get_flag(StatusFlag::Zero));
    assert!(!cpu.registers.get_flag(StatusFlag::Negative));
    assert_eq!(cpu.registers.p, 0x36);
    assert_eq!(cpu.registers.pc, 0x8002);
}

#[test]
fn lda_immediate_negative() {
    let cpu = run_one(0x00, 0x36, &[0xA9, 0x80]);
    assert_eq!(cpu.registers.a, 0x80);
    assert_eq!(cpu.registers.p, 0xB4);
}

#[test]
fn beq_minus_two_loops_on_itself() {
    let cpu = run_one(0x00, 0x36, &[0xF0, 0xFE]);
    assert_eq!(cpu.registers.pc, 0x8000);
    assert_eq!(cpu.registers.p, 0x36);
}

#[test]
fn beq_not_taken_moves_past_the_branch() {
    let cpu = run_one(0x00, 0x34, &[0xF0, 0xFE]);
    assert_eq!(cpu.registers.pc, 0x8002);
}

#[test]
fn branches_wrap_around_the_address_space() {
    let mut cpu = cpu_at(0x0000, &[0xD0, 0xFD]);
    assert!(cpu.step());
    assert_eq!(cpu.registers.pc, 0xFFFF);
    let mut cpu = cpu_at(0xFFF0, &[0xD0, 0x7F]);
    assert!(cpu.step());
    assert_eq!(cpu.registers.pc, 0x0071);
    let mut cpu = cpu_at(0x8000, &[0xD0, 0x80]);
    assert!(cpu.step());
    assert_eq!(cpu.registers.pc, 0x7F82);
}

#[test]
fn each_branch_tests_its_flag() {
    // (opcode, flags with which it is taken, flags with which it is not)
    let cases: [(u8, u8, u8); 8] = [
        (0x90, 0x20, 0x21),
        (0xB0, 0x21, 0x20),
        (0xD0, 0x20, 0x22),
        (0xF0, 0x22, 0x20),
        (0x10, 0x20, 0xA0),
        (0x30, 0xA0, 0x20),
        (0x50, 0x20, 0x60),
        (0x70, 0x60, 0x20),
    ];
    for (opcode, taken, passed) in cases {
        let cpu = run_one(0, taken, &[opcode, 0x10]);
        assert_eq!(cpu.registers.pc, 0x8012, "opcode {:#04x}", opcode);
        assert_eq!(cpu.registers.p, taken);
        let cpu = run_one(0, passed, &[opcode, 0x10]);
        assert_eq!(cpu.registers.pc, 0x8002, "opcode {:#04x}", opcode);
        assert_eq!(cpu.registers.p, passed);
    }
}

#[test]
fn push_then_pull_restores_every_accumulator() {
    for sp in [0xFFu8, 0x80, 0x01, 0x00] {
        for a in 0..=255u8 {
            let mut cpu = cpu_at(0x8000, &[0x48, 0x68]);
            cpu.registers.a = a;
            cpu.registers.sp = sp;
            assert!(cpu.step());
            assert_eq!(cpu.registers.sp, sp.wrapping_sub(1));
            assert_eq!(cpu.memory.read_byte(0x0100 + sp as u16), a);
            cpu.registers.a = !a;
            assert!(cpu.step());
            assert_eq!(cpu.registers.a, a);
            assert_eq!(cpu.registers.sp, sp);
            assert_eq!(cpu.registers.pc, 0x8002);
        }
    }
}

#[test]
fn pla_sets_zero_and_negative() {
    let mut cpu = cpu_at(0x8000, &[0x68]);
    cpu.registers.sp = 0xFE;
    cpu.memory.write_byte(0x01FF, 0x00);
    assert!(cpu.step());
    assert_eq!(cpu.registers.p, 0x36);
    let mut cpu = cpu_at(0x8000, &[0x68]);
    cpu.registers.sp = 0xFF;
    cpu.memory.write_byte(0x0100, 0x90);
    assert!(cpu.step());
    assert_eq!(cpu.registers.a, 0x90);
    assert_eq!(cpu.registers.sp, 0x00);
    assert_eq!(cpu.registers.p, 0xB4);
}

#[test]
fn call_then_return_resumes_after_the_call() {
    let mut cpu = cpu_at(0x8000, &[0x20, 0x00, 0x90]);
    cpu.memory.write_byte(0x9000, 0x60);
    assert!(cpu.step());
    assert_eq!(cpu.registers.pc, 0x9000);
    assert_eq!(cpu.registers.sp, 0xFD);
    assert_eq!(cpu.memory.read_byte(0x01FF), 0x80);
    assert_eq!(cpu.memory.read_byte(0x01FE), 0x02);
    assert!(cpu.step());
    assert_eq!(cpu.registers.pc, 0x8003);
    assert_eq!(cpu.registers.sp, 0xFF);
    assert_eq!(cpu.registers.p, 0x34);
}

#[test]
fn call_and_return_wrap_the_stack_pointer() {
    let mut cpu = cpu_at(0x80FE, &[0x20, 0x34, 0x12]);
    cpu.memory.write_byte(0x1234, 0x60);
    cpu.registers.sp = 0x00;
    assert!(cpu.step());
    assert_eq!(cpu.registers.pc, 0x1234);
    assert_eq!(cpu.registers.sp, 0xFE);
    assert_eq!(cpu.memory.read_byte(0x0100), 0x81);
    assert_eq!(cpu.memory.read_byte(0x01FF), 0x00);
    assert!(cpu.step());
    assert_eq!(cpu.registers.pc, 0x8101);
    assert_eq!(cpu.registers.sp, 0x00);
}

#[test]
fn adc_with_carry_in_and_out() {
    let cpu = run_one(0xFF, 0x35, &[0x69, 0x00]);
    assert_eq!(cpu.registers.a, 0x00);
    assert_eq!(cpu.registers.p, 0x37);
    let cpu = run_one(0x80, 0x34, &[0x69, 0x80]);
    assert_eq!(cpu.registers.a, 0x00);
    assert_eq!(cpu.registers.p, 0x77);
    let cpu = run_one(0x7F, 0x35, &[0x69, 0x00]);
    assert_eq!(cpu.registers.a, 0x80);
    assert_eq!(cpu.registers.p, 0xF4);
    let cpu = run_one(0x12, 0x34, &[0x69, 0x34]);
    assert_eq!(cpu.registers.a, 0x46);
    assert_eq!(cpu.registers.p, 0x34);
}

#[test]
fn adc_is_binary_whatever_the_decimal_flag() {
    let cpu = run_one(0x09, 0x3C, &[0x69, 0x01]);
    assert_eq!(cpu.registers.a, 0x0A);
    assert_eq!(cpu.registers.p, 0x3C);
}

#[test]
fn sbc_overflow_and_equality() {
    let cpu = run_one(0x50, 0x35, &[0xE9, 0xB0]);
    assert_eq!(cpu.registers.a, 0xA0);
    assert_eq!(cpu.registers.p, 0xF4);
    let cpu = run_one(0x42, 0x35, &[0xE9, 0x42]);
    assert_eq!(cpu.registers.a, 0x00);
    assert_eq!(cpu.registers.p, 0x37);
    let cpu = run_one(0x80, 0x35, &[0xE9, 0x01]);
    assert_eq!(cpu.registers.a, 0x7F);
    assert_eq!(cpu.registers.p, 0x75);
    let cpu = run_one(0x10, 0x34, &[0xE9, 0x05]);
    assert_eq!(cpu.registers.a, 0x0A);
    assert_eq!(cpu.registers.p, 0x35);
}

#[test]
fn logic_with_the_accumulator() {
    let cpu = run_one(0xF0, 0x34, &[0x29, 0x3C]);
    assert_eq!(cpu.registers.a, 0x30);
    assert_eq!(cpu.registers.p, 0x34);
    let cpu = run_one(0xF0, 0x34, &[0x09, 0x0F]);
    assert_eq!(cpu.registers.a, 0xFF);
    assert_eq!(cpu.registers.p, 0xB4);
    let cpu = run_one(0xFF, 0x34, &[0x49, 0xFF]);
    assert_eq!(cpu.registers.a, 0x00);
    assert_eq!(cpu.registers.p, 0x36);
    let cpu = run_one(0x0F, 0xB4, &[0x29, 0xF0]);
    assert_eq!(cpu.registers.a, 0x00);
    assert_eq!(cpu.registers.p, 0x36);
}

#[test]
fn shifts_on_the_accumulator() {
    let cpu = run_one(0x81, 0x34, &[0x0A]);
    assert_eq!(cpu.registers.a, 0x02);
    assert_eq!(cpu.registers.p, 0x35);
    assert_eq!(cpu.registers.pc, 0x8001);
    let cpu = run_one(0x01, 0x34, &[0x4A]);
    assert_eq!(cpu.registers.a, 0x00);
    assert_eq!(cpu.registers.p, 0x37);
    let cpu = run_one(0x80, 0x35, &[0x2A]);
    assert_eq!(cpu.registers.a, 0x01);
    assert_eq!(cpu.registers.p, 0x35);
    let cpu = run_one(0x01, 0x35, &[0x6A]);
    assert_eq!(cpu.registers.a, 0x80);
    assert_eq!(cpu.registers.p, 0xB5);
    let cpu = run_one(0x02, 0x34, &[0x6A]);
    assert_eq!(cpu.registers.a, 0x01);
    assert_eq!(cpu.registers.p, 0x34);
    let cpu = run_one(0x40, 0x34, &[0x2A]);
    assert_eq!(cpu.registers.a, 0x80);
    assert_eq!(cpu.registers.p, 0xB4);
}

#[test]
fn shifts_on_memory() {
    let mut cpu = cpu_at(0x8000, &[0x06, 0x10]);
    cpu.memory.write_byte(0x0010, 0x40);
    assert!(cpu.step());
    assert_eq!(cpu.memory.read_byte(0x0010), 0x80);
    assert_eq!(cpu.registers.a, 0x00);
    assert_eq!(cpu.registers.p, 0xB4);
    assert_eq!(cpu.registers.pc, 0x8002);
    let mut cpu = cpu_at(0x8000, &[0x7E, 0x00, 0x20]);
    cpu.registers.x = 0x05;
    cpu.registers.p = 0x35;
    cpu.memory.write_byte(0x2005, 0x03);
    assert!(cpu.step());
    assert_eq!(cpu.memory.read_byte(0x2005), 0x81);
    assert_eq!(cpu.registers.p, 0xB5);
    assert_eq!(cpu.registers.pc, 0x8003);
}

#[test]
fn increments_and_decrements_wrap() {
    let mut cpu = cpu_at(0x8000, &[0xE6, 0x10]);
    cpu.registers.p = 0x35;
    cpu.memory.write_byte(0x0010, 0xFF);
    assert!(cpu.step());
    assert_eq!(cpu.memory.read_byte(0x0010), 0x00);
    assert_eq!(cpu.registers.p, 0x37);
    let mut cpu = cpu_at(0x8000, &[0xC6, 0x10]);
    assert!(cpu.step());
    assert_eq!(cpu.memory.read_byte(0x0010), 0xFF);
    assert_eq!(cpu.registers.p, 0xB4);
    let mut cpu = cpu_at(0x8000, &[0xE8, 0x88, 0xC8, 0xCA]);
    cpu.registers.x = 0xFF;
    cpu.registers.y = 0x00;
    assert!(cpu.step());
    assert_eq!(cpu.registers.x, 0x00);
    assert_eq!(cpu.registers.p, 0x36);
    assert!(cpu.step());
    assert_eq!(cpu.registers.y, 0xFF);
    assert_eq!(cpu.registers.p, 0xB4);
    assert!(cpu.step());
    assert_eq!(cpu.registers.y, 0x00);
    assert_eq!(cpu.registers.p, 0x36);
    assert!(cpu.step());
    assert_eq!(cpu.registers.x, 0xFF);
    assert_eq!(cpu.registers.p, 0xB4);
    assert_eq!(cpu.registers.pc, 0x8004);
}

#[test]
fn increment_and_decrement_of_the_accumulator() {
    let cpu = run_one(0x7F, 0x34, &[0x1A]);
    assert_eq!(cpu.registers.a, 0x80);
    assert_eq!(cpu.registers.p, 0xB4);
    assert_eq!(cpu.registers.pc, 0x8001);
    let cpu = run_one(0x01, 0x35, &[0x3A]);
    assert_eq!(cpu.registers.a, 0x00);
    assert_eq!(cpu.registers.p, 0x37);
}

#[test]
fn comparisons() {
    let cpu = run_one(0x40, 0x34, &[0xC9, 0x40]);
    assert_eq!(cpu.registers.a, 0x40);
    assert_eq!(cpu.registers.p, 0x37);
    let cpu = run_one(0x40, 0x35, &[0xC9, 0x41]);
    assert_eq!(cpu.registers.p, 0xB4);
    let cpu = run_one(0x80, 0x34, &[0xC9, 0x01]);
    assert_eq!(cpu.registers.p, 0x35);
    let mut cpu = cpu_at(0x8000, &[0xE0, 0x10, 0xC0, 0x10]);
    cpu.registers.x = 0x20;
    cpu.registers.y = 0x05;
    assert!(cpu.step());
    assert_eq!(cpu.registers.p, 0x35);
    assert!(cpu.step());
    assert_eq!(cpu.registers.p, 0xB4);
    assert_eq!(cpu.registers.x, 0x20);
    assert_eq!(cpu.registers.y, 0x05);
}

#[test]
fn loads_and_stores() {
    let mut cpu = cpu_at(0x8000, &[0xA2, 0x80, 0xA0, 0x00, 0x86, 0x10, 0x84, 0x11, 0x85, 0x12]);
    cpu.registers.a = 0x77;
    assert!(cpu.step());
    assert_eq!(cpu.registers.x, 0x80);
    assert_eq!(cpu.registers.p, 0xB4);
    assert!(cpu.step());
    assert_eq!(cpu.registers.y, 0x00);
    assert_eq!(cpu.registers.p, 0x36);
    cpu.memory.write_byte(0x0011, 0xEE);
    assert!(cpu.step());
    assert!(cpu.step());
    assert!(cpu.step());
    assert_eq!(cpu.memory.read_byte(0x0010), 0x80);
    assert_eq!(cpu.memory.read_byte(0x0011), 0x00);
    assert_eq!(cpu.memory.read_byte(0x0012), 0x77);
    assert_eq!(cpu.registers.p, 0x36);
    assert_eq!(cpu.registers.pc, 0x800A);
}

#[test]
fn transfers() {
    let mut cpu = cpu_at(0x8000, &[0xAA, 0xA8, 0xBA, 0x8A, 0x9A, 0x98]);
    cpu.registers.a = 0x80;
    cpu.registers.sp = 0x00;
    assert!(cpu.step());
    assert_eq!(cpu.registers.x, 0x80);
    assert_eq!(cpu.registers.p, 0xB4);
    assert!(cpu.step());
    assert_eq!(cpu.registers.y, 0x80);
    assert!(cpu.step());
    assert_eq!(cpu.registers.x, 0x00);
    assert_eq!(cpu.registers.p, 0x36);
    cpu.registers.a = 0x55;
    assert!(cpu.step());
    assert_eq!(cpu.registers.a, 0x00);
    assert_eq!(cpu.registers.p, 0x36);
    cpu.registers.x = 0x80;
    assert!(cpu.step());
    assert_eq!(cpu.registers.sp, 0x80);
    assert_eq!(cpu.registers.p, 0x36);
    assert!(cpu.step());
    assert_eq!(cpu.registers.a, 0x80);
    assert_eq!(cpu.registers.p, 0xB4);
    assert_eq!(cpu.registers.pc, 0x8006);
}

#[test]
fn flag_operations_change_one_flag() {
    let cases: [(u8, u8, u8); 7] = [
        (0x18, 0xFF, 0xFE),
        (0x38, 0x20, 0x21),
        (0x58, 0xFF, 0xFB),
        (0x78, 0x20, 0x24),
        (0xD8, 0xFF, 0xF7),
        (0xF8, 0x20, 0x28),
        (0xB8, 0xFF, 0xBF),
    ];
    for (opcode, before, after) in cases {
        let cpu = run_one(0x12, before, &[opcode]);
        assert_eq!(cpu.registers.p, after, "opcode {:#04x}", opcode);
        assert_eq!(cpu.registers.a, 0x12);
        assert_eq!(cpu.registers.pc, 0x8001);
    }
}

#[test]
fn push_and_pull_of_the_flags() {
    let mut cpu = cpu_at(0x8000, &[0x08, 0x28]);
    cpu.registers.p = 0xC3;
    assert!(cpu.step());
    assert_eq!(cpu.memory.read_byte(0x01FF), 0xF3);
    assert_eq!(cpu.registers.sp, 0xFE);
    assert_eq!(cpu.registers.p, 0xC3);
    cpu.registers.p = 0x20;
    assert!(cpu.step());
    assert_eq!(cpu.registers.p, 0xE3);
    assert_eq!(cpu.registers.sp, 0xFF);
    assert_eq!(cpu.registers.pc, 0x8002);
}

#[test]
fn software_interrupt_and_return() {
    let mut cpu = cpu_at(0x8000, &[0x00, 0xEA]);
    cpu.memory.write_word(0xFFFE, 0x9000);
    cpu.memory.write_byte(0x9000, 0x40);
    cpu.registers.p = 0x21;
    assert!(cpu.step());
    assert_eq!(cpu.registers.pc, 0x9000);
    assert_eq!(cpu.registers.sp, 0xFC);
    assert_eq!(cpu.memory.read_byte(0x01FF), 0x80);
    assert_eq!(cpu.memory.read_byte(0x01FE), 0x02);
    assert_eq!(cpu.memory.read_byte(0x01FD), 0x31);
    assert_eq!(cpu.registers.p, 0x25);
    assert!(cpu.step());
    assert_eq!(cpu.registers.pc, 0x8002);
    assert_eq!(cpu.registers.sp, 0xFF);
    assert_eq!(cpu.registers.p, 0x21);
}

#[test]
fn jumps() {
    let mut cpu = cpu_at(0x8000, &[0x4C, 0x34, 0x12]);
    assert!(cpu.step());
    assert_eq!(cpu.registers.pc, 0x1234);
    assert_eq!(cpu.registers.sp, 0xFF);
    let mut cpu = cpu_at(0x8000, &[0x6C, 0x00, 0x20]);
    cpu.memory.write_word(0x2000, 0xABCD);
    assert!(cpu.step());
    assert_eq!(cpu.registers.pc, 0xABCD);
}

#[test]
fn indirect_jump_reads_its_high_byte_from_the_same_page() {
    let mut cpu = cpu_at(0x8000, &[0x6C, 0xFF, 0x12]);
    cpu.memory.write_byte(0x12FF, 0x34);
    cpu.memory.write_byte(0x1300, 0x56);
    cpu.memory.write_byte(0x1200, 0x78);
    assert!(cpu.step());
    assert_eq!(cpu.registers.pc, 0x7834);
}

#[test]
fn bit_test() {
    let mut cpu = cpu_at(0x8000, &[0x24, 0x10]);
    cpu.registers.a = 0x0F;
    cpu.memory.write_byte(0x0010, 0xC0);
    assert!(cpu.step());
    assert_eq!(cpu.registers.a, 0x0F);
    assert_eq!(cpu.registers.p, 0xF6);
    assert_eq!(cpu.memory.read_byte(0x0010), 0xC0);
    let mut cpu = cpu_at(0x8000, &[0x2C, 0x00, 0x30]);
    cpu.registers.a = 0x01;
    cpu.registers.p = 0xF6;
    cpu.memory.write_byte(0x3000, 0x01);
    assert!(cpu.step());
    assert_eq!(cpu.registers.p, 0x34);
    assert_eq!(cpu.registers.pc, 0x8003);
    let mut cpu = cpu_at(0x8000, &[0x34, 0x10]);
    cpu.registers.a = 0xFF;
    cpu.registers.x = 0x02;
    cpu.memory.write_byte(0x0012, 0x40);
    assert!(cpu.step());
    assert_eq!(cpu.registers.p, 0x74);
}

#[test]
fn nop_only_moves_on() {
    let cpu = run_one(0x12, 0xA5, &[0xEA]);
    assert_eq!(cpu.registers.a, 0x12);
    assert_eq!(cpu.registers.p, 0xA5);
    assert_eq!(cpu.registers.sp, 0xFF);
    assert_eq!(cpu.registers.pc, 0x8001);
}

#[test]
fn test_and_set_or_reset_bits() {
    let mut cpu = cpu_at(0x8000, &[0x04, 0x20, 0x14, 0x20, 0x0C, 0x00, 0x30]);
    cpu.registers.a = 0x0F;
    cpu.memory.write_byte(0x0020, 0xF0);
    assert!(cpu.step());
    assert_eq!(cpu.memory.read_byte(0x0020), 0xFF);
    assert_eq!(cpu.registers.p, 0x36);
    assert_eq!(cpu.registers.a, 0x0F);
    assert!(cpu.step());
    assert_eq!(cpu.memory.read_byte(0x0020), 0xF0);
    assert_eq!(cpu.registers.p, 0x34);
    cpu.memory.write_byte(0x3000, 0x81);
    cpu.registers.a = 0x03;
    assert!(cpu.step());
    assert_eq!(cpu.memory.read_byte(0x3000), 0x83);
    assert_eq!(cpu.registers.p, 0x34);
    assert_eq!(cpu.registers.pc, 0x8007);
}

#[test]
fn reset_of_one_memory_bit() {
    for bit in 0..8u8 {
        let mut cpu = cpu_at(0x8000, &[0x07 + 0x10 * bit, 0x40]);
        cpu.memory.write_byte(0x0040, 0xFF);
        cpu.registers.p = 0xA5;
        assert!(cpu.step());
        assert_eq!(cpu.memory.read_byte(0x0040), 0xFF & !(1u8 << bit));
        assert_eq!(cpu.registers.p, 0xA5);
        assert_eq!(cpu.registers.pc, 0x8002);
    }
    let mut cpu = cpu_at(0x8000, &[0x37, 0x40]);
    cpu.memory.write_byte(0x0040, 0x08);
    assert!(cpu.step());
    assert_eq!(cpu.memory.read_byte(0x0040), 0x00);
    assert_eq!(cpu.registers.p, 0x34);
}

#[test]
fn branches_on_one_memory_bit() {
    let mut cpu = cpu_at(0x8000, &[0x0F, 0x10, 0x05]);
    cpu.memory.write_byte(0x0010, 0xFE);
    assert!(cpu.step());
    assert_eq!(cpu.registers.pc, 0x8008);
    let mut cpu = cpu_at(0x8000, &[0x0F, 0x10, 0x05]);
    cpu.memory.write_byte(0x0010, 0x01);
    assert!(cpu.step());
    assert_eq!(cpu.registers.pc, 0x8003);
    let mut cpu = cpu_at(0x8000, &[0xFF, 0x10, 0xFD]);
    cpu.memory.write_byte(0x0010, 0x80);
    assert!(cpu.step());
    assert_eq!(cpu.registers.pc, 0x8000);
    let mut cpu = cpu_at(0x8000, &[0xFF, 0x10, 0xFD]);
    cpu.memory.write_byte(0x0010, 0x7F);
    cpu.registers.p = 0xA5;
    assert!(cpu.step());
    assert_eq!(cpu.registers.pc, 0x8003);
    assert_eq!(cpu.registers.p, 0xA5);
    for bit in 0..8u8 {
        let mut cpu = cpu_at(0x8000, &[0x8F + 0x10 * bit, 0x10, 0x10]);
        cpu.memory.write_byte(0x0010, 1u8 << bit);
        assert!(cpu.step());
        assert_eq!(cpu.registers.pc, 0x8013);
        let mut cpu = cpu_at(0x8000, &[0x0F + 0x10 * bit, 0x10, 0x10]);
        cpu.memory.write_byte(0x0010, 1u8 << bit);
        assert!(cpu.step());
        assert_eq!(cpu.registers.pc, 0x8003);
    }
}

#[test]
fn combined_shift_instructions() {
    // SLO: shift left, then or.
    let mut cpu = cpu_at(0x8000, &[0x1B, 0x00, 0x20]);
    cpu.registers.a = 0x01;
    cpu.registers.y = 0x04;
    cpu.memory.write_byte(0x2004, 0x81);
    assert!(cpu.step());
    assert_eq!(cpu.memory.read_byte(0x2004), 0x02);
    assert_eq!(cpu.registers.a, 0x03);
    assert_eq!(cpu.registers.p, 0x35);
    // RLA: rotate left, then and.
    let mut cpu = cpu_at(0x8000, &[0x3B, 0x00, 0x20]);
    cpu.registers.a = 0xFF;
    cpu.registers.p = 0x35;
    cpu.memory.write_byte(0x2000, 0x40);
    assert!(cpu.step());
    assert_eq!(cpu.memory.read_byte(0x2000), 0x81);
    assert_eq!(cpu.registers.a, 0x81);
    assert_eq!(cpu.registers.p, 0xB4);
    // SRE: shift right, then exclusive or.
    let mut cpu = cpu_at(0x8000, &[0x5B, 0x00, 0x20]);
    cpu.registers.a = 0xFF;
    cpu.memory.write_byte(0x2000, 0x03);
    assert!(cpu.step());
    assert_eq!(cpu.memory.read_byte(0x2000), 0x01);
    assert_eq!(cpu.registers.a, 0xFE);
    assert_eq!(cpu.registers.p, 0xB5);
    // RRA: rotate right, then add with the carry that came out.
    let mut cpu = cpu_at(0x8000, &[0x7B, 0x00, 0x20]);
    cpu.registers.a = 0x10;
    cpu.memory.write_byte(0x2000, 0x03);
    assert!(cpu.step());
    assert_eq!(cpu.memory.read_byte(0x2000), 0x01);
    assert_eq!(cpu.registers.a, 0x12);
    assert_eq!(cpu.registers.p, 0x34);
    assert_eq!(cpu.registers.pc, 0x8003);
}

#[test]
fn combined_load_store_and_count_instructions() {
    // SAX: store accumulator and X.
    let mut cpu = cpu_at(0x8000, &[0x87, 0x10]);
    cpu.registers.a = 0xF0;
    cpu.registers.x = 0x3C;
    cpu.registers.p = 0xA5;
    assert!(cpu.step());
    assert_eq!(cpu.memory.read_byte(0x0010), 0x30);
    assert_eq!(cpu.registers.p, 0xA5);
    // LAX: load accumulator and X.
    let mut cpu = cpu_at(0x8000, &[0xA7, 0x10]);
    cpu.memory.write_byte(0x0010, 0x80);
    assert!(cpu.step());
    assert_eq!(cpu.registers.a, 0x80);
    assert_eq!(cpu.registers.x, 0x80);
    assert_eq!(cpu.registers.p, 0xB4);
    // DCP: decrement, then compare.
    let mut cpu = cpu_at(0x8000, &[0xC7, 0x10]);
    cpu.registers.a = 0x40;
    cpu.memory.write_byte(0x0010, 0x41);
    assert!(cpu.step());
    assert_eq!(cpu.memory.read_byte(0x0010), 0x40);
    assert_eq!(cpu.registers.a, 0x40);
    assert_eq!(cpu.registers.p, 0x37);
    // ISB: increment, then subtract.
    let mut cpu = cpu_at(0x8000, &[0xE7, 0x10]);
    cpu.registers.a = 0x20;
    cpu.registers.p = 0x35;
    cpu.memory.write_byte(0x0010, 0x0F);
    assert!(cpu.step());
    assert_eq!(cpu.memory.read_byte(0x0010), 0x10);
    assert_eq!(cpu.registers.a, 0x10);
    assert_eq!(cpu.registers.p, 0x35);
    assert_eq!(cpu.registers.pc, 0x8002);
}

#[test]
fn execute_insn_takes_a_table_entry() {
    let mut cpu = cpu_at(0x8000, &[0x00, 0x42]);
    cpu.execute_insn(Instruction { opcode: OpCode::LDA, mode: AddressingMode::Immediate });
    assert_eq!(cpu.registers.a, 0x42);
    assert_eq!(cpu.registers.pc, 0x8002);
    cpu.execute_insn(Instruction { opcode: OpCode::TAX, mode: AddressingMode::Implied });
    assert_eq!(cpu.registers.x, 0x42);
    assert_eq!(cpu.registers.pc, 0x8003);
}

#[test]
fn every_instruction_keeps_the_unused_flag() {
    for opcode in 0..=255u8 {
        for p in [0x20u8, 0x34, 0xFF, 0xA5 | 0x20] {
            let mut cpu = cpu_at(0x8000, &[opcode, 0x10, 0x20]);
            cpu.registers.p = p;
            cpu.registers.sp = 0xFC;
            cpu.memory.write_byte(0x01FD, 0x00);
            cpu.memory.write_byte(0x01FE, 0xDF);
            cpu.step();
            assert!(cpu.registers.get_flag(StatusFlag::Unused), "opcode {:#04x}", opcode);
        }
    }
}

#[test]
fn instructions_that_do_not_redirect_move_past_themselves() {
    let redirecting = [
        OpCode::BCC,
        OpCode::BCS,
        OpCode::BEQ,
        OpCode::BMI,
        OpCode::BNE,
        OpCode::BPL,
        OpCode::BVC,
        OpCode::BVS,
        OpCode::BRK,
        OpCode::JMP,
        OpCode::JSR,
        OpCode::RTI,
        OpCode::RTS,
    ];
    for opcode in 0..=255u8 {
        if let Some(insn) = volve::instruction::decode(opcode) {
            let name = format!("{:?}", insn.opcode);
            if redirecting.contains(&insn.opcode) || name.starts_with("BB") {
                continue;
            }
            let mut cpu = cpu_at(0xFFFE, &[opcode, 0x10, 0x20]);
            assert!(cpu.step());
            assert_eq!(cpu.registers.pc, 0xFFFEu16.wrapping_add(insn.mode.length()));
        }
    }
}

#[test]
fn rotate_left_then_right_restores_accumulator_and_carry() {
    for carry in [0x34u8, 0x35] {
        for a in 0..=255u8 {
            let mut cpu = cpu_at(0x8000, &[0x2A, 0x6A]);
            cpu.registers.a = a;
            cpu.registers.p = carry;
            assert!(cpu.step());
            assert_eq!(cpu.registers.a, (a << 1) | (carry & 1));
            assert_eq!(cpu.registers.get_flag(StatusFlag::Carry), a >= 0x80);
            assert!(cpu.step());
            assert_eq!(cpu.registers.a, a);
            assert_eq!(cpu.registers.p & 0x01, carry & 0x01);
            assert_eq!(cpu.registers.pc, 0x8002);
        }
    }
}

#[test]
fn push_then_pull_restores_every_status() {
    for p in 0..=255u8 {
        let p = p | 0x20;
        let mut cpu = cpu_at(0x8000, &[0x08, 0x28]);
        cpu.registers.p = p;
        assert!(cpu.step());
        assert_eq!(cpu.memory.read_byte(0x01FF), p | 0x30);
        assert!(cpu.step());
        assert_eq!(cpu.registers.p, p);
        assert_eq!(cpu.registers.sp, 0xFF);
    }
}

#[test]
fn interrupt_then_return_restores_flags_and_stack_pointer() {
    for p in [0x20u8, 0x24, 0x34, 0xE1, 0xFF] {
        for sp in [0xFFu8, 0x02, 0x01, 0x00] {
            let mut cpu = cpu_at(0x4000, &[0x00, 0xEA, 0xEA]);
            cpu.memory.write_word(0xFFFE, 0x9000);
            cpu.memory.write_byte(0x9000, 0x40);
            cpu.registers.p = p;
            cpu.registers.sp = sp;
            assert!(cpu.step());
            assert_eq!(cpu.registers.pc, 0x9000);
            assert_eq!(cpu.registers.sp, sp.wrapping_sub(3));
            assert!(cpu.registers.get_flag(StatusFlag::NoInterrupts));
            assert!(cpu.step());
            assert_eq!(cpu.registers.pc, 0x4002);
            assert_eq!(cpu.registers.p, p);
            assert_eq!(cpu.registers.sp, sp);
        }
    }
}

#[test]
fn increment_then_decrement_restores_memory() {
    for value in [0x00u8, 0x01, 0x7F, 0x80, 0xFF] {
        let mut cpu = cpu_at(0x8000, &[0xE6, 0x10, 0xC6, 0x10, 0xC6, 0x10, 0xE6, 0x10]);
        cpu.memory.write_byte(0x0010, value);
        assert!(cpu.step());
        assert_eq!(cpu.memory.read_byte(0x0010), value.wrapping_add(1));
        assert!(cpu.step());
        assert_eq!(cpu.memory.read_byte(0x0010), value);
        assert!(cpu.step());
        assert_eq!(cpu.memory.read_byte(0x0010), value.wrapping_sub(1));
        assert!(cpu.step());
        assert_eq!(cpu.memory.read_byte(0x0010), value);
    }
}

#[test]
fn add_and_subtract_agree_with_wide_arithmetic() {
    for a in (0..=255u8).step_by(5) {
        for value in (0..=255u8).step_by(3) {
            for carry in [0u8, 1] {
                let mut cpu = cpu_at(0x8000, &[0x69, value]);
                cpu.registers.a = a;
                cpu.registers.p = 0x20 | carry;
                assert!(cpu.step());
                let sum = a as i32 + value as i32 + carry as i32;
                let signed_sum = (a as i8) as i32 + (value as i8) as i32 + carry as i32;
                assert_eq!(cpu.registers.a, (sum & 0xFF) as u8);
                assert_eq!(cpu.registers.get_flag(StatusFlag::Carry), sum > 0xFF);
                assert_eq!(cpu.registers.get_flag(StatusFlag::Zero), sum & 0xFF == 0);
                assert_eq!(cpu.registers.get_flag(StatusFlag::Negative), sum & 0x80 != 0);
                assert_eq!(
                    cpu.registers.get_flag(StatusFlag::Overflow),
                    signed_sum < -128 || signed_sum > 127
                );

                let mut cpu = cpu_at(0x8000, &[0xE9, value]);
                cpu.registers.a = a;
                cpu.registers.p = 0x20 | carry;
                assert!(cpu.step());
                let difference = a as i32 - value as i32 - (1 - carry as i32);
                let signed_difference = (a as i8) as i32 - (value as i8) as i32 - (1 - carry as i32);
                assert_eq!(cpu.registers.a, (difference & 0xFF) as u8);
                assert_eq!(cpu.registers.get_flag(StatusFlag::Carry), difference >= 0);
                assert_eq!(cpu.registers.get_flag(StatusFlag::Zero), difference & 0xFF == 0);
                assert_eq!(cpu.registers.get_flag(StatusFlag::Negative), difference & 0x80 != 0);
                assert_eq!(
                    cpu.registers.get_flag(StatusFlag::Overflow),
                    signed_difference < -128 || signed_difference > 127
                );
            }
        }
    }
}

#[test]
fn comparisons_agree_with_wide_arithmetic() {
    for register in (0..=255u8).step_by(7) {
        for value in (0..=255u8).step_by(5) {
            let mut cpu = cpu_at(0x8000, &[0xC9, value]);
            cpu.registers.a = register;
            assert!(cpu.step());
            assert_eq!(cpu.registers.a, register);
            assert_eq!(cpu.registers.get_flag(StatusFlag::Carry), register >= value);
            assert_eq!(cpu.registers.get_flag(StatusFlag::Zero), register == value);
            assert_eq!(
                cpu.registers.get_flag(StatusFlag::Negative),
                register.wrapping_sub(value) >= 0x80
            );
        }
    }
}

#[test]
fn instructions_change_memory_only_where_they_write() {
    for opcode in 0..=255u8 {
        let insn = match volve::instruction::decode(opcode) {
            Some(insn) => insn,
            None => continue,
        };
        let mut cpu = cpu_at(0x8000, &[opcode, 0x40, 0x20]);
        cpu.registers.a = 0x5A;
        cpu.registers.x = 0x03;
        cpu.registers.y = 0x07;
        cpu.registers.sp = 0x80;
        for address in 0x0040..0x0050u16 {
            cpu.memory.write_byte(address, 0x81);
        }
        for address in 0x2040..0x2050u16 {
            cpu.memory.write_byte(address, 0x81);
        }
        let operand = cpu.resolve(insn.mode);
        let before: Vec<u8> = (0..=0xFFFFu16).map(|address| cpu.memory.read_byte(address)).collect();
        assert!(cpu.step());
        for address in 0..=0xFFFFu16 {
            if cpu.memory.read_byte(address) != before[address as usize] {
                let in_stack = (0x0100..=0x01FF).contains(&address);
                let at_operand = operand == volve::machine::Operand::Address(address);
                assert!(in_stack || at_operand, "opcode {:#04x} wrote {:#06x}", opcode, address);
            }
        }
    }
}
