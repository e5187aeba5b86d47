use volve::instruction::{decode, AddressingMode, Instruction, OpCode};

/// The opcode matrix, one row for each high nibble, one entry for each low
/// nibble. `-` marks a byte that stands for no instruction.
const GOLDEN: [&str; 16] = [
    "BRK:imp ORA:inx - SLO:inx TSB:zp ORA:zp ASL:zp RMB0:zp PHP:imp ORA:imm ASL:acc - TSB:abs ORA:abs ASL:abs BBR0:rel",
    "BPL:rel ORA:iny - SLO:iny TRB:zp ORA:zpx ASL:zpx RMB1:zp CLC:imp ORA:aby INC:acc SLO:aby TRB:abs ORA:abx ASL:abx BBR1:rel",
    "JSR:abs AND:inx - RLA:inx BIT:zp AND:zp ROL:zp RMB2:zp PLP:imp AND:imm ROL:acc - BIT:abs AND:abs ROL:abs BBR2:rel",
    "BMI:rel AND:iny - RLA:iny BIT:zpx AND:zpx ROL:zpx RMB3:zp SEC:imp AND:aby DEC:acc RLA:aby BIT:abx AND:abx ROL:abx BBR3:rel",
    "RTI:imp EOR:inx - SRE:inx - EOR:zp LSR:zp RMB4:zp PHA:imp EOR:imm LSR:acc - JMP:abs EOR:abs LSR:abs BBR4:rel",
    "BVC:rel EOR:iny - SRE:iny - EOR:zpx LSR:zpx RMB5:zp CLI:imp EOR:aby - SRE:aby - EOR:abx LSR:abx BBR5:rel",
    "RTS:imp ADC:inx - RRA:inx - ADC:zp ROR:zp RMB6:zp PLA:imp ADC:imm ROR:acc - JMP:ind ADC:abs ROR:abs BBR6:rel",
    "BVS:rel ADC:iny - RRA:iny - ADC:zpx ROR:zpx RMB7:zp SEI:imp ADC:aby - RRA:aby - ADC:abx ROR:abx BBR7:rel",
    "- STA:inx - SAX:inx STY:zp STA:zp STX:zp SAX:zp DEY:imp - TXA:imp - STY:abs STA:abs STX:abs BBS0:rel",
    "BCC:rel STA:iny - - STY:zpx STA:zpx STX:zpy SAX:zpy TYA:imp STA:aby TXS:imp - - STA:abx - BBS1:rel",
    "LDY:imm LDA:inx LDX:imm LAX:inx LDY:zp LDA:zp LDX:zp LAX:zp TAY:imp LDA:imm TAX:imp - LDY:abs LDA:abs LDX:abs BBS2:rel",
    "BCS:rel LDA:iny - LAX:iny LDY:zpx LDA:zpx LDX:zpy LAX:zpy CLV:imp LDA:aby TSX:imp - LDY:abx LDA:abx LDX:aby BBS3:rel",
    "CPY:imm CMP:inx - DCP:inx CPY:zp CMP:zp DEC:zp DCP:zp INY:imp CMP:imm DEX:imp - CPY:abs CMP:abs DEC:abs BBS4:rel",
    "BNE:rel CMP:iny - DCP:iny - CMP:zpx DEC:zpx DCP:zpx CLD:imp CMP:aby - DCP:aby - CMP:abx DEC:abx BBS5:rel",
    "CPX:imm SBC:inx - ISB:inx CPX:zp SBC:zp INC:zp ISB:zp INX:imp SBC:imm NOP:imp - CPX:abs SBC:abs INC:abs BBS6:rel",
    "BEQ:rel SBC:iny - ISB:iny - SBC:zpx INC:zpx ISB:zpx SED:imp SBC:aby - ISB:aby - SBC:abx INC:abx BBS7:rel",
];

fn mode_name(short: &str) -> &'static str {
    match short {
        "imp" => "Implied",
        "acc" => "Accumulator",
        "imm" => "Immediate",
        "zp" => "ZeroPage",
        "zpx" => "ZeroPageX",
        "zpy" => "ZeroPageY",
        "rel" => "Relative",
        "abs" => "Absolute",
        "abx" => "AbsoluteX",
        "aby" => "AbsoluteY",
        "ind" => "Indirect",
        "inx" => "IndexedIndirectX",
        "iny" => "IndirectIndexedY",
        other => panic!("unknown mode {}", other),
    }
}

fn golden(byte: u8) -> Option<String> {
    let row = GOLDEN[(byte >> 4) as usize];
    let entries: Vec<&str> = row.split(' ').collect();
    assert_eq!(entries.len(), 16);
    let entry = entries[(byte & 0x0F) as usize];
    if entry == "-" {
        None
    } else {
        let parts: Vec<&str> = entry.split(':').collect();
        Some(format!("{} {}", parts[0], mode_name(parts[1])))
    }
}

fn shown(byte: u8) -> Option<String> {
    decode(byte).map(|insn| format!("{:?} {:?}", insn.opcode, insn.mode))
}

#[test]
fn decode_matches_the_golden_table() {
    for byte in 0..=255u8 {
        assert_eq!(shown(byte), golden(byte), "opcode {:#04x}", byte);
    }
}

#[test]
fn decode_leaves_forty_four_bytes_without_meaning() {
    let absent: Vec<u8> = (0..=255u8).filter(|b| decode(*b).is_none()).collect();
    assert_eq!(
        absent,
        vec![
            0x02, 0x0B, 0x12, 0x22, 0x2B, 0x32, 0x42, 0x44, 0x4B, 0x52, 0x54, 0x5A, 0x5C, 0x62,
            0x64, 0x6B, 0x72, 0x74, 0x7A, 0x7C, 0x80, 0x82, 0x89, 0x8B, 0x92, 0x93, 0x9B, 0x9C,
            0x9E, 0xAB, 0xB2, 0xBB, 0xC2, 0xCB, 0xD2, 0xD4, 0xDA, 0xDC, 0xE2, 0xEB, 0xF2, 0xF4,
            0xFA, 0xFC,
        ]
    );
}

#[test]
fn decode_gives_no_instruction_twice() {
    let mut seen: Vec<Instruction> = Vec::new();
    for byte in 0..=255u8 {
        if let Some(insn) = decode(byte) {
            assert!(!seen.contains(&insn), "{:?} has two opcodes", insn);
            seen.push(insn);
        }
    }
    assert_eq!(seen.len(), 212);
}

#[test]
fn decode_of_well_known_opcodes() {
    let lda = Instruction { opcode: OpCode::LDA, mode: AddressingMode::Immediate };
    assert_eq!(decode(0xA9), Some(lda));
    let brk = Instruction { opcode: OpCode::BRK, mode: AddressingMode::Implied };
    assert_eq!(decode(0x00), Some(brk));
    let jmp = Instruction { opcode: OpCode::JMP, mode: AddressingMode::Indirect };
    assert_eq!(decode(0x6C), Some(jmp));
    let sta = Instruction { opcode: OpCode::STA, mode: AddressingMode::Absolute };
    assert_eq!(decode(0x8D), Some(sta));
    let eor = Instruction { opcode: OpCode::EOR, mode: AddressingMode::AbsoluteY };
    assert_eq!(decode(0x59), Some(eor));
    let ror = Instruction { opcode: OpCode::ROR, mode: AddressingMode::AbsoluteX };
    assert_eq!(decode(0x7E), Some(ror));
    let lda_indexed = Instruction { opcode: OpCode::LDA, mode: AddressingMode::IndexedIndirectX };
    assert_eq!(decode(0xA1), Some(lda_indexed));
    assert_eq!(decode(0x02), None);
    assert_eq!(decode(0xFC), None);
}

#[test]
fn decode_places_the_bit_instructions() {
    let resets = [
        OpCode::RMB0,
        OpCode::RMB1,
        OpCode::RMB2,
        OpCode::RMB3,
        OpCode::RMB4,
        OpCode::RMB5,
        OpCode::RMB6,
        OpCode::RMB7,
    ];
    let on_reset = [
        OpCode::BBR0,
        OpCode::BBR1,
        OpCode::BBR2,
        OpCode::BBR3,
        OpCode::BBR4,
        OpCode::BBR5,
        OpCode::BBR6,
        OpCode::BBR7,
    ];
    let on_set = [
        OpCode::BBS0,
        OpCode::BBS1,
        OpCode::BBS2,
        OpCode::BBS3,
        OpCode::BBS4,
        OpCode::BBS5,
        OpCode::BBS6,
        OpCode::BBS7,
    ];
    for bit in 0..8u8 {
        let n = bit as usize;
        assert_eq!(
            decode(0x07 + 0x10 * bit),
            Some(Instruction { opcode: resets[n], mode: AddressingMode::ZeroPage })
        );
        assert_eq!(
            decode(0x0F + 0x10 * bit),
            Some(Instruction { opcode: on_reset[n], mode: AddressingMode::Relative })
        );
        assert_eq!(
            decode(0x8F + 0x10 * bit),
            Some(Instruction { opcode: on_set[n], mode: AddressingMode::Relative })
        );
    }
}

#[test]
fn mode_lengths() {
    assert_eq!(AddressingMode::Implied.length(), 1);
    assert_eq!(AddressingMode::Accumulator.length(), 1);
    assert_eq!(AddressingMode::Stack.length(), 1);
    assert_eq!(AddressingMode::Immediate.length(), 2);
    assert_eq!(AddressingMode::ZeroPage.length(), 2);
    assert_eq!(AddressingMode::ZeroPageX.length(), 2);
    assert_eq!(AddressingMode::ZeroPageY.length(), 2);
    assert_eq!(AddressingMode::Relative.length(), 2);
    assert_eq!(AddressingMode::IndexedIndirectX.length(), 2);
    assert_eq!(AddressingMode::IndirectIndexedY.length(), 2);
    assert_eq!(AddressingMode::Absolute.length(), 3);
    assert_eq!(AddressingMode::AbsoluteX.length(), 3);
    assert_eq!(AddressingMode::AbsoluteY.length(), 3);
    assert_eq!(AddressingMode::Indirect.length(), 3);
    assert_eq!(AddressingMode::AbsoluteIndirect.length(), 3);
    assert_eq!(AddressingMode::AbsoluteIndexedIndirect.length(), 3);
}
