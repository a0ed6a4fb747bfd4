use rusty8::state::VmError;
use rusty8::vm::Emulator;
use rusty8::isa::{decode, Instruction};

#[test]
fn decode_recognizes_each_family() {
    assert_eq!(decode(0x00E0, 0).unwrap(), Instruction::ClearScreen);
    assert_eq!(decode(0x00EE, 0).unwrap(), Instruction::Return);
    assert_eq!(decode(0x1234, 0).unwrap(), Instruction::Jump { nnn: 0x234 });
    assert_eq!(decode(0x2345, 0).unwrap(), Instruction::Call { nnn: 0x345 });
    assert_eq!(decode(0x3A42, 0).unwrap(), Instruction::SkipEqImm { x: 0xA, nn: 0x42 });
    assert_eq!(decode(0x4A42, 0).unwrap(), Instruction::SkipNeImm { x: 0xA, nn: 0x42 });
    assert_eq!(decode(0x5AB0, 0).unwrap(), Instruction::SkipEqReg { x: 0xA, y: 0xB });
    assert_eq!(decode(0x6A42, 0).unwrap(), Instruction::SetImm { x: 0xA, nn: 0x42 });
    assert_eq!(decode(0x7A42, 0).unwrap(), Instruction::AddImm { x: 0xA, nn: 0x42 });
    assert_eq!(decode(0x8AB0, 0).unwrap(), Instruction::Assign { x: 0xA, y: 0xB });
    assert_eq!(decode(0x8AB1, 0).unwrap(), Instruction::Or { x: 0xA, y: 0xB });
    assert_eq!(decode(0x8AB2, 0).unwrap(), Instruction::And { x: 0xA, y: 0xB });
    assert_eq!(decode(0x8AB3, 0).unwrap(), Instruction::Xor { x: 0xA, y: 0xB });
    assert_eq!(decode(0x8AB4, 0).unwrap(), Instruction::AddReg { x: 0xA, y: 0xB });
    assert_eq!(decode(0x8AB5, 0).unwrap(), Instruction::SubReg { x: 0xA, y: 0xB });
    assert_eq!(decode(0x8AB6, 0).unwrap(), Instruction::ShiftRight { x: 0xA });
    assert_eq!(decode(0x8AB7, 0).unwrap(), Instruction::SubRev { x: 0xA, y: 0xB });
    assert_eq!(decode(0x8ABE, 0).unwrap(), Instruction::ShiftLeft { x: 0xA });
    assert_eq!(decode(0x9AB0, 0).unwrap(), Instruction::SkipNeReg { x: 0xA, y: 0xB });
    assert_eq!(decode(0xA123, 0).unwrap(), Instruction::SetIndex { nnn: 0x123 });
    assert_eq!(decode(0xB123, 0).unwrap(), Instruction::IndexV0 { nnn: 0x123 });
    assert_eq!(decode(0xCA42, 0).unwrap(), Instruction::Random { x: 0xA, nn: 0x42 });
    assert_eq!(decode(0xDAB5, 0).unwrap(), Instruction::Draw { x: 0xA, y: 0xB, n: 5 });
    assert_eq!(decode(0xEA9E, 0).unwrap(), Instruction::SkipKeyPressed { x: 0xA });
    assert_eq!(decode(0xEAA1, 0).unwrap(), Instruction::SkipKeyNotPressed { x: 0xA });
    assert_eq!(decode(0xFA07, 0).unwrap(), Instruction::GetDelay { x: 0xA });
    assert_eq!(decode(0xFA0A, 0).unwrap(), Instruction::WaitKey { x: 0xA });
    assert_eq!(decode(0xFA15, 0).unwrap(), Instruction::SetDelay { x: 0xA });
    assert_eq!(decode(0xFA18, 0).unwrap(), Instruction::SetSound { x: 0xA });
    assert_eq!(decode(0xFA1E, 0).unwrap(), Instruction::AddIndex { x: 0xA });
    assert_eq!(decode(0xFA29, 0).unwrap(), Instruction::FontAddr { x: 0xA });
    assert_eq!(decode(0xFA33, 0).unwrap(), Instruction::StoreBcd { x: 0xA });
    assert_eq!(decode(0xFA55, 0).unwrap(), Instruction::DumpRegs { x: 0xA });
    assert_eq!(decode(0xFA65, 0).unwrap(), Instruction::LoadRegs { x: 0xA });
}

#[test]
fn decode_rejects_unknown_patterns() {
    assert_eq!(
        decode(0x0123, 0x200).unwrap_err(),
        VmError::IllegalInstruction { opcode: 0x0123, pc: 0x200 }
    );
    assert_eq!(
        decode(0x5AB1, 0x208).unwrap_err(),
        VmError::IllegalInstruction { opcode: 0x5AB1, pc: 0x208 }
    );
    assert_eq!(
        decode(0x8AB8, 0).unwrap_err(),
        VmError::IllegalInstruction { opcode: 0x8AB8, pc: 0 }
    );
    assert_eq!(
        decode(0x9AB1, 0).unwrap_err(),
        VmError::IllegalInstruction { opcode: 0x9AB1, pc: 0 }
    );
    assert_eq!(
        decode(0xEA00, 0).unwrap_err(),
        VmError::IllegalInstruction { opcode: 0xEA00, pc: 0 }
    );
    assert_eq!(
        decode(0xFAFF, 0).unwrap_err(),
        VmError::IllegalInstruction { opcode: 0xFAFF, pc: 0 }
    );
}

#[test]
fn step_jump_sets_pc_exactly() {
    // 1ABC: jump to 0xABC
    let mut e = Emulator::new(&[0x1A, 0xBC]).unwrap();
    e.step().unwrap();
    assert_eq!(e.pc(), 0xABC);
}

#[test]
fn step_call_pushes_precall_pc_then_return_restores_it() {
    // 0x200: call 0x204; 0x204: return
    let mut e = Emulator::new(&[0x22, 0x04, 0x00, 0x00, 0x00, 0xEE]).unwrap();
    e.step().unwrap();
    assert_eq!(e.pc(), 0x204);
    assert_eq!(e.stack_depth(), 1);
    e.step().unwrap();
    // the pushed address is the pre-call pc after its fetch advance
    assert_eq!(e.pc(), 0x202);
    assert_eq!(e.stack_depth(), 0);
}

#[test]
fn step_set_then_add_accumulates_mod_256() {
    // 61FA: V1 = 0xFA; 710F: V1 += 0x0F
    let mut e = Emulator::new(&[0x61, 0xFA, 0x71, 0x0F]).unwrap();
    e.step().unwrap();
    e.step().unwrap();
    assert_eq!(e.reg(1), (0xFAu16 + 0x0F) as u8);
    assert_eq!(e.reg(1), 0x09);
    assert_eq!(e.reg(0xF), 0);
    assert_eq!(e.pc(), 0x204);
}

#[test]
fn step_skip_advances_by_extra_instruction() {
    // 6007: V0 = 7; 3007: skip (taken); anything; 3008: skip (not taken)
    let mut e = Emulator::new(&[0x60, 0x07, 0x30, 0x07, 0x00, 0x00, 0x30, 0x08]).unwrap();
    e.step().unwrap();
    assert_eq!(e.pc(), 0x202);
    e.step().unwrap();
    assert_eq!(e.pc(), 0x206);
    e.step().unwrap();
    assert_eq!(e.pc(), 0x208);
}

#[test]
fn step_random_masks_with_nn() {
    // C000: V0 = random & 0x00; C50F: V5 = random & 0x0F
    let mut e = Emulator::new(&[0xC0, 0x00, 0xC5, 0x0F]).unwrap();
    e.step().unwrap();
    assert_eq!(e.reg(0), 0);
    e.step().unwrap();
    assert!(e.reg(5) <= 0x0F);
}

#[test]
fn step_illegal_instruction_reports_opcode_and_pc() {
    let mut e = Emulator::new(&[0xFF, 0xFF]).unwrap();
    assert_eq!(
        e.step().unwrap_err(),
        VmError::IllegalInstruction { opcode: 0xFFFF, pc: 0x200 }
    );
    // the fetch advance stands
    assert_eq!(e.pc(), 0x202);
}

#[test]
fn step_fetch_out_of_bounds() {
    // jump to the last byte of memory, then try to fetch there
    let mut e = Emulator::new(&[0x1F, 0xFF]).unwrap();
    e.step().unwrap();
    assert_eq!(e.pc(), 0xFFF);
    assert_eq!(e.step().unwrap_err(), VmError::OutOfBounds { addr: 0x1000 });
    assert_eq!(e.pc(), 0xFFF);
}

#[test]
fn step_index_quirk_bnnn_adds_v0_into_index() {
    // 6004: V0 = 4; B200: I = 0x200 + V0 (this family writes I, not the pc)
    let mut e = Emulator::new(&[0x60, 0x04, 0xB2, 0x00]).unwrap();
    e.step().unwrap();
    e.step().unwrap();
    assert_eq!(e.index(), 0x204);
    assert_eq!(e.pc(), 0x204);
}

#[test]
fn key_wait_blocks_until_key_then_stores_it() {
    // F30A: wait for a key, store it in V3
    let mut e = Emulator::new(&[0xF3, 0x0A]).unwrap();
    for _ in 0..5 {
        e.step().unwrap();
        assert_eq!(e.pc(), 0x200);
        assert!(e.is_waiting());
    }
    e.set_key(0x9, true);
    e.step().unwrap();
    assert_eq!(e.reg(3), 0x9);
    assert!(!e.is_waiting());
    assert_eq!(e.pc(), 0x202);
}

#[test]
fn clear_then_jump_to_self_runs_indefinitely() {
    // 00E0: clear; 1200: jump back to the clear
    let mut e = Emulator::new(&[0x00, 0xE0, 0x12, 0x00]).unwrap();
    e.step().unwrap();
    let mut reference: Vec<u8> = Vec::new();
    for x in 0..64 {
        for y in 0..32 {
            reference.push(e.pixel(x, y));
        }
    }
    for _ in 0..20 {
        e.step().unwrap();
        let mut now: Vec<u8> = Vec::new();
        for x in 0..64 {
            for y in 0..32 {
                now.push(e.pixel(x, y));
            }
        }
        assert_eq!(now, reference);
        assert!(e.pc() == 0x200 || e.pc() == 0x202);
    }
    assert!(reference.iter().all(|c| *c == 0));
}

#[test]
fn step_draws_sprite_with_collision_flag() {
    // A29E? use font: 600A: V0 = 10 (x); 6105: V1 = 5 (y); A700 needs data:
    // write the sprite byte first through the library, then run D015
    let mut e = Emulator::new(&[0x60, 0x0A, 0x61, 0x05, 0xA7, 0x00, 0xD0, 0x15, 0xD0, 0x15])
        .unwrap();
    e.write_byte(0x700, 0xFF).unwrap();
    e.step().unwrap();
    e.step().unwrap();
    e.step().unwrap();
    assert_eq!(e.index(), 0x700);
    e.step().unwrap();
    for x in 10..18 {
        assert_eq!(e.pixel(x, 5), 1);
    }
    assert_eq!(e.reg(0xF), 0);
    e.step().unwrap();
    for x in 10..18 {
        assert_eq!(e.pixel(x, 5), 0);
    }
    assert_eq!(e.reg(0xF), 1);
}

#[test]
fn step_bcd_from_program() {
    // 63EA: V3 = 234; A300: I = 0x300; F333: store digits
    let mut e = Emulator::new(&[0x63, 0xEA, 0xA3, 0x00, 0xF3, 0x33]).unwrap();
    e.step().unwrap();
    e.step().unwrap();
    e.step().unwrap();
    assert_eq!(e.read_byte(0x300).unwrap(), 2);
    assert_eq!(e.read_byte(0x301).unwrap(), 3);
    assert_eq!(e.read_byte(0x302).unwrap(), 4);
}

#[test]
fn step_timer_instructions() {
    // 6305: V3 = 5; F315: delay = V3; F318: sound = V3; F407: V4 = delay
    let mut e = Emulator::new(&[0x63, 0x05, 0xF3, 0x15, 0xF3, 0x18, 0xF4, 0x07]).unwrap();
    e.step().unwrap();
    e.step().unwrap();
    e.step().unwrap();
    e.step().unwrap();
    assert_eq!(e.delay_timer(), 5);
    assert_eq!(e.sound_timer(), 5);
    assert_eq!(e.reg(4), 5);
}

#[test]
fn step_register_ops_family() {
    // 600C: V0 = 12; 610A: V1 = 10; 8014: V0 += V1; 8015: V0 -= V1;
    // 8016: V0 >>= 1; 801E: V0 <<= 1; 8011: V0 |= V1; 8012: V0 &= V1;
    // 8013: V0 ^= V1; 8010: V0 = V1
    let mut e = Emulator::new(&[
        0x60, 0x0C, 0x61, 0x0A, 0x80, 0x14, 0x80, 0x15, 0x80, 0x16, 0x80, 0x1E, 0x80, 0x11,
        0x80, 0x12, 0x80, 0x13, 0x80, 0x10,
    ])
    .unwrap();
    e.step().unwrap();
    e.step().unwrap();
    e.step().unwrap();
    assert_eq!(e.reg(0), 22);
    assert_eq!(e.reg(0xF), 0);
    e.step().unwrap();
    assert_eq!(e.reg(0), 12);
    assert_eq!(e.reg(0xF), 0);
    e.step().unwrap();
    assert_eq!(e.reg(0), 6);
    assert_eq!(e.reg(0xF), 0);
    e.step().unwrap();
    assert_eq!(e.reg(0), 12);
    assert_eq!(e.reg(0xF), 0);
    e.step().unwrap();
    assert_eq!(e.reg(0), 12 | 10);
    e.step().unwrap();
    assert_eq!(e.reg(0), (12 | 10) & 10);
    e.step().unwrap();
    assert_eq!(e.reg(0), ((12 | 10) & 10) ^ 10);
    e.step().unwrap();
    assert_eq!(e.reg(0), 10);
}

#[test]
fn step_dump_and_load_family() {
    // 6011: V0 = 0x11; 6122: V1 = 0x22; A400: I = 0x400; F155: dump V0..V1;
    // 6000, 6100: zero them; F165: load V0..V1 back
    let mut e = Emulator::new(&[
        0x60, 0x11, 0x61, 0x22, 0xA4, 0x00, 0xF1, 0x55, 0x60, 0x00, 0x61, 0x00, 0xF1, 0x65,
    ])
    .unwrap();
    for _ in 0..4 {
        e.step().unwrap();
    }
    assert_eq!(e.read_byte(0x400).unwrap(), 0x11);
    assert_eq!(e.read_byte(0x401).unwrap(), 0x22);
    assert_eq!(e.index(), 0x400);
    for _ in 0..3 {
        e.step().unwrap();
    }
    assert_eq!(e.reg(0), 0x11);
    assert_eq!(e.reg(1), 0x22);
}

#[test]
fn step_key_skips_family() {
    // 6007: V0 = 7; E09E: skip if key 7 pressed (it is not); E0A1: skip if
    // key 7 not pressed (taken)
    let mut e = Emulator::new(&[0x60, 0x07, 0xE0, 0x9E, 0xE0, 0xA1, 0x00, 0x00]).unwrap();
    e.step().unwrap();
    e.step().unwrap();
    assert_eq!(e.pc(), 0x204);
    e.step().unwrap();
    assert_eq!(e.pc(), 0x208);
    // and with the key held, E09E skips
    let mut e2 = Emulator::new(&[0x60, 0x07, 0xE0, 0x9E]).unwrap();
    e2.set_key(7, true);
    e2.step().unwrap();
    e2.step().unwrap();
    assert_eq!(e2.pc(), 0x206);
}

#[test]
fn step_font_and_index_family() {
    // 6A0B: VA = 0xB; FA29: I = 5 * 0xB; FA1E: I += VA
    let mut e = Emulator::new(&[0x6A, 0x0B, 0xFA, 0x29, 0xFA, 0x1E]).unwrap();
    e.step().unwrap();
    e.step().unwrap();
    assert_eq!(e.index(), 55);
    e.step().unwrap();
    assert_eq!(e.index(), 66);
}

#[test]
fn step_register_skip_family() {
    // 6005, 6105: V0 = V1 = 5; 5010: skip (taken); 0000 skipped; 9010: skip
    // (not taken, they are equal)
    let mut e = Emulator::new(&[0x60, 0x05, 0x61, 0x05, 0x50, 0x10, 0x00, 0x00, 0x90, 0x10])
        .unwrap();
    e.step().unwrap();
    e.step().unwrap();
    e.step().unwrap();
    assert_eq!(e.pc(), 0x208);
    e.step().unwrap();
    assert_eq!(e.pc(), 0x20A);
}

#[test]
fn step_draw_pattern_exact_cells() {
    // draw the two-row pattern 0b10100000 / 0b01000000 at (0, 0)
    let mut e = Emulator::new(&[0xA7, 0x00, 0xD0, 0x12]).unwrap();
    e.write_byte(0x700, 0b1010_0000).unwrap();
    e.write_byte(0x701, 0b0100_0000).unwrap();
    e.step().unwrap();
    e.step().unwrap();
    assert_eq!(e.pixel(0, 0), 1);
    assert_eq!(e.pixel(1, 0), 0);
    assert_eq!(e.pixel(2, 0), 1);
    assert_eq!(e.pixel(3, 0), 0);
    assert_eq!(e.pixel(0, 1), 0);
    assert_eq!(e.pixel(1, 1), 1);
    assert_eq!(e.pixel(2, 1), 0);
    assert_eq!(e.reg(0xF), 0);
}
