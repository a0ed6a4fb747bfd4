use rusty8::state::VmError;
use rusty8::vm::Emulator;

const FONT: [u8; 80] = [
    0xF0, 0x90, 0x90, 0x90, 0xF0, // 0
    0x20, 0x60, 0x20, 0x20, 0x70, // 1
    0xF0, 0x10, 0xF0, 0x80, 0xF0, // 2
    0xF0, 0x10, 0xF0, 0x10, 0xF0, // 3
    0x90, 0x90, 0xF0, 0x10, 0x10, // 4
    0xF0, 0x80, 0xF0, 0x10, 0xF0, // 5
    0xF0, 0x80, 0xF0, 0x90, 0xF0, // 6
    0xF0, 0x10, 0x20, 0x40, 0x40, // 7
    0xF0, 0x90, 0xF0, 0x90, 0xF0, // 8
    0xF0, 0x90, 0xF0, 0x10, 0xF0, // 9
    0xF0, 0x90, 0xF0, 0x90, 0x90, // A
    0xE0, 0x90, 0xE0, 0x90, 0xE0, // B
    0xF0, 0x80, 0x80, 0x80, 0xF0, // C
    0xE0, 0x90, 0x90, 0x90, 0xE0, // D
    0xF0, 0x80, 0xF0, 0x80, 0xF0, // E
    0xF0, 0x80, 0xF0, 0x80, 0x80, // F
];

#[test]
fn init_loads_font_rom_and_pc() {
    let rom = [0xAB_u8, 0xCD, 0xEF];
    let e = Emulator::new(&rom).unwrap();
    for i in 0..80u16 {
        assert_eq!(e.read_byte(i).unwrap(), FONT[i as usize]);
    }
    for i in 80..512u16 {
        assert_eq!(e.read_byte(i).unwrap(), 0);
    }
    assert_eq!(e.read_byte(0x200).unwrap(), 0xAB);
    assert_eq!(e.read_byte(0x201).unwrap(), 0xCD);
    assert_eq!(e.read_byte(0x202).unwrap(), 0xEF);
    for i in 0x203..4096u16 {
        assert_eq!(e.read_byte(i).unwrap(), 0);
    }
    assert_eq!(e.pc(), 0x200);
    assert_eq!(e.index(), 0);
    assert_eq!(e.stack_depth(), 0);
    assert_eq!(e.delay_timer(), 0);
    assert_eq!(e.sound_timer(), 0);
    assert!(!e.is_waiting());
    for x in 0..16 {
        assert_eq!(e.reg(x), 0);
    }
}

#[test]
fn init_rejects_oversized_rom() {
    let rom = vec![0u8; 3585];
    match Emulator::new(&rom) {
        Err(e) => assert_eq!(e, VmError::InvalidRom),
        Ok(_) => panic!("an oversized program must be rejected"),
    }
    let rom = vec![0u8; 3584];
    assert!(Emulator::new(&rom).is_ok());
}

#[test]
fn clear_screen_zeroes_and_marks_dirty() {
    let mut e = Emulator::new(&[]).unwrap();
    // light one cell first: draw the 0xF0 top row of glyph 0 at (0, 0)
    e.set_address_to(0);
    e.draw_sprite(0, 1, 1).unwrap();
    assert_eq!(e.pixel(0, 0), 1);
    let _ = e.take_redraw();
    e.clear_screen();
    for x in 0..64 {
        for y in 0..32 {
            assert_eq!(e.pixel(x, y), 0);
        }
    }
    assert!(e.take_redraw());
    assert!(!e.take_redraw());
}

#[test]
fn set_then_add_wraps_without_flags() {
    let mut e = Emulator::new(&[]).unwrap();
    e.set_register_to(1, 0xFA);
    e.add_to_variable(1, 0x0F);
    assert_eq!(e.reg(1), 0x09);
    assert_eq!(e.reg(0xF), 0);
}

#[test]
fn add_with_carry_flag() {
    let mut e = Emulator::new(&[]).unwrap();
    e.set_register_to(0, 0xFF);
    e.set_register_to(1, 0x01);
    e.op_add(0, 1);
    assert_eq!(e.reg(0), 0x00);
    assert_eq!(e.reg(0xF), 1);
    e.set_register_to(0, 0x01);
    e.set_register_to(1, 0x01);
    e.op_add(0, 1);
    assert_eq!(e.reg(0), 2);
    assert_eq!(e.reg(0xF), 0);
}

#[test]
fn sub_sets_flag_on_borrow() {
    let mut e = Emulator::new(&[]).unwrap();
    e.set_register_to(0, 5);
    e.set_register_to(1, 7);
    e.op_sub(0, 1);
    assert_eq!(e.reg(0), 254);
    assert_eq!(e.reg(0xF), 1);
    e.set_register_to(0, 7);
    e.set_register_to(1, 5);
    e.op_sub(0, 1);
    assert_eq!(e.reg(0), 2);
    assert_eq!(e.reg(0xF), 0);
}

#[test]
fn sub_reversed_sets_flag_on_borrow() {
    let mut e = Emulator::new(&[]).unwrap();
    e.set_register_to(0, 7);
    e.set_register_to(1, 5);
    e.op_sub_assign(0, 1);
    assert_eq!(e.reg(0), 254);
    assert_eq!(e.reg(0xF), 1);
    e.set_register_to(0, 5);
    e.set_register_to(1, 7);
    e.op_sub_assign(0, 1);
    assert_eq!(e.reg(0), 2);
    assert_eq!(e.reg(0xF), 0);
}

#[test]
fn bitwise_ops() {
    let mut e = Emulator::new(&[]).unwrap();
    e.set_register_to(2, 0b1100);
    e.set_register_to(3, 0b1010);
    e.op_or(2, 3);
    assert_eq!(e.reg(2), 0b1110);
    e.set_register_to(2, 0b1100);
    e.op_and(2, 3);
    assert_eq!(e.reg(2), 0b1000);
    e.set_register_to(2, 0b1100);
    e.op_xor(2, 3);
    assert_eq!(e.reg(2), 0b0110);
    e.op_assignment(2, 3);
    assert_eq!(e.reg(2), 0b1010);
}

#[test]
fn shift_right_keeps_low_bit() {
    let mut e = Emulator::new(&[]).unwrap();
    e.set_register_to(4, 0x03);
    e.op_shift_right(4);
    assert_eq!(e.reg(4), 0x01);
    assert_eq!(e.reg(0xF), 1);
    e.set_register_to(4, 0x04);
    e.op_shift_right(4);
    assert_eq!(e.reg(4), 0x02);
    assert_eq!(e.reg(0xF), 0);
}

#[test]
fn shift_left_keeps_raw_high_bit() {
    let mut e = Emulator::new(&[]).unwrap();
    e.set_register_to(4, 0x81);
    e.op_shift_left(4);
    assert_eq!(e.reg(4), 0x02);
    // the raw masked high bit, not a normalized 1
    assert_eq!(e.reg(0xF), 0x80);
    e.set_register_to(4, 0x41);
    e.op_shift_left(4);
    assert_eq!(e.reg(4), 0x82);
    assert_eq!(e.reg(0xF), 0x00);
}

#[test]
fn call_then_return_restores_pc_and_stack() {
    let mut e = Emulator::new(&[]).unwrap();
    let pc0 = e.pc();
    assert_eq!(e.stack_depth(), 0);
    e.fn_call(0x400).unwrap();
    assert_eq!(e.pc(), 0x400);
    assert_eq!(e.stack_depth(), 1);
    e.fn_return().unwrap();
    assert_eq!(e.pc(), pc0);
    assert_eq!(e.stack_depth(), 0);
}

#[test]
fn stack_overflow_and_underflow_are_errors() {
    let mut e = Emulator::new(&[]).unwrap();
    assert_eq!(e.fn_return().unwrap_err(), VmError::StackUnderflow);
    for _ in 0..16 {
        e.fn_call(0x300).unwrap();
    }
    assert_eq!(e.stack_depth(), 16);
    assert_eq!(e.fn_call(0x300).unwrap_err(), VmError::StackOverflow);
    assert_eq!(e.stack_depth(), 16);
}

#[test]
fn bcd_store_splits_digits() {
    let mut e = Emulator::new(&[]).unwrap();
    e.set_register_to(3, 234);
    e.set_address_to(0x300);
    e.store_variable_as_binary(3).unwrap();
    assert_eq!(e.read_byte(0x300).unwrap(), 2);
    assert_eq!(e.read_byte(0x301).unwrap(), 3);
    assert_eq!(e.read_byte(0x302).unwrap(), 4);
}

#[test]
fn bcd_store_out_of_bounds() {
    let mut e = Emulator::new(&[]).unwrap();
    e.set_register_to(3, 7);
    e.set_address_to(0xFFE);
    assert_eq!(
        e.store_variable_as_binary(3).unwrap_err(),
        VmError::OutOfBounds { addr: 0x1000 }
    );
    // the memory was not touched
    assert_eq!(e.read_byte(0xFFE).unwrap(), 0);
    assert_eq!(e.read_byte(0xFFF).unwrap(), 0);
}

#[test]
fn dump_and_load_registers() {
    let mut e = Emulator::new(&[]).unwrap();
    for x in 0..16 {
        e.set_register_to(x, 10 + x);
    }
    e.set_address_to(0x350);
    e.dump_registers_into_memory(0xF).unwrap();
    for x in 0..16u16 {
        assert_eq!(e.read_byte(0x350 + x).unwrap(), 10 + x as u8);
    }
    assert_eq!(e.index(), 0x350);
    // only V0..V2 were dumped past the end of this range
    let mut e2 = Emulator::new(&[]).unwrap();
    e2.set_address_to(0x350);
    e2.write_byte(0x350, 42).unwrap();
    e2.write_byte(0x351, 43).unwrap();
    e2.write_byte(0x352, 44).unwrap();
    e2.load_registers_from_memory(2).unwrap();
    assert_eq!(e2.reg(0), 42);
    assert_eq!(e2.reg(1), 43);
    assert_eq!(e2.reg(2), 44);
    assert_eq!(e2.reg(3), 0);
}

#[test]
fn dump_out_of_bounds() {
    let mut e = Emulator::new(&[]).unwrap();
    e.set_address_to(0xFF8);
    assert_eq!(
        e.dump_registers_into_memory(0xF).unwrap_err(),
        VmError::OutOfBounds { addr: 0x1007 }
    );
    assert_eq!(
        e.load_registers_from_memory(0xF).unwrap_err(),
        VmError::OutOfBounds { addr: 0x1007 }
    );
}

#[test]
fn index_register_ops() {
    let mut e = Emulator::new(&[]).unwrap();
    e.set_address_to(0xFFF);
    assert_eq!(e.index(), 0xFFF);
    e.set_register_to(0, 0x10);
    e.add_variable_to_address(0);
    assert_eq!(e.index(), 0x100F);
    e.jump_add(0x200);
    assert_eq!(e.index(), 0x210);
    e.set_register_to(5, 0xA);
    e.sets_address_to_font_sprite(5);
    assert_eq!(e.index(), 50);
}

#[test]
fn font_lookup_points_at_glyph() {
    let mut e = Emulator::new(&[]).unwrap();
    for d in 0..16u8 {
        e.set_register_to(0, d);
        e.sets_address_to_font_sprite(0);
        let i = e.index();
        assert_eq!(i, 5 * d as u16);
        for row in 0..5u16 {
            assert_eq!(e.read_byte(i + row).unwrap(), FONT[(5 * d as usize) + row as usize]);
        }
    }
}

#[test]
fn timers_set_read_and_tick() {
    let mut e = Emulator::new(&[]).unwrap();
    e.set_register_to(2, 3);
    e.set_delay_timer_to(2);
    e.set_register_to(3, 1);
    e.set_sound_timer_to(3);
    assert_eq!(e.delay_timer(), 3);
    assert_eq!(e.sound_timer(), 1);
    e.set_register_to(4, 0);
    e.set_variable_to_delay_timer(4);
    assert_eq!(e.reg(4), 3);
    e.tick_timers();
    assert_eq!(e.delay_timer(), 2);
    assert_eq!(e.sound_timer(), 0);
    e.tick_timers();
    e.tick_timers();
    assert_eq!(e.delay_timer(), 0);
    assert_eq!(e.sound_timer(), 0);
    e.tick_timers();
    assert_eq!(e.delay_timer(), 0);
}

#[test]
fn read_write_byte_bounds() {
    let mut e = Emulator::new(&[]).unwrap();
    e.write_byte(0xFFF, 9).unwrap();
    assert_eq!(e.read_byte(0xFFF).unwrap(), 9);
    assert_eq!(e.read_byte(0x1000).unwrap_err(), VmError::OutOfBounds { addr: 0x1000 });
    assert_eq!(e.write_byte(0x1000, 1).unwrap_err(), VmError::OutOfBounds { addr: 0x1000 });
}

#[test]
fn draw_sets_pixels_then_xors_them_off() {
    let mut e = Emulator::new(&[]).unwrap();
    e.write_byte(0x700, 0xFF).unwrap();
    e.set_address_to(0x700);
    // V0 = 0, V1 = 0: draw one 8-bit row at (0, 0)
    e.draw_sprite(0, 1, 1).unwrap();
    for x in 0..8 {
        assert_eq!(e.pixel(x, 0), 1);
    }
    assert_eq!(e.pixel(8, 0), 0);
    assert_eq!(e.reg(0xF), 0);
    assert!(e.take_redraw());
    // drawing the same sprite again unsets the cells and reports collision
    e.draw_sprite(0, 1, 1).unwrap();
    for x in 0..8 {
        assert_eq!(e.pixel(x, 0), 0);
    }
    assert_eq!(e.reg(0xF), 1);
    assert!(e.take_redraw());
}

#[test]
fn draw_wraps_both_axes() {
    let mut e = Emulator::new(&[]).unwrap();
    e.write_byte(0x700, 0b1100_0000).unwrap();
    e.write_byte(0x701, 0b1000_0000).unwrap();
    e.set_address_to(0x700);
    e.set_register_to(0, 63);
    e.set_register_to(1, 31);
    e.draw_sprite(0, 1, 2).unwrap();
    // row 0 lands at y = 31: x = 63 and wrapped x = 0
    assert_eq!(e.pixel(63, 31), 1);
    assert_eq!(e.pixel(0, 31), 1);
    // row 1 wraps to y = 0
    assert_eq!(e.pixel(63, 0), 1);
    assert_eq!(e.reg(0xF), 0);
}

#[test]
fn draw_coordinates_taken_modulo_screen() {
    let mut e = Emulator::new(&[]).unwrap();
    e.write_byte(0x700, 0b1000_0000).unwrap();
    e.set_address_to(0x700);
    e.set_register_to(0, 64 + 3);
    e.set_register_to(1, 32 + 2);
    e.draw_sprite(0, 1, 1).unwrap();
    assert_eq!(e.pixel(3, 2), 1);
}

#[test]
fn draw_out_of_bounds_rows() {
    let mut e = Emulator::new(&[]).unwrap();
    e.set_address_to(4090);
    assert_eq!(
        e.draw_sprite(0, 1, 15).unwrap_err(),
        VmError::OutOfBounds { addr: 4104 }
    );
}

#[test]
fn key_latch_and_skips() {
    let mut e = Emulator::new(&[]).unwrap();
    e.set_register_to(0, 0x5);
    let pc0 = e.pc();
    e.skip_if_pressed(0).unwrap();
    assert_eq!(e.pc(), pc0);
    e.skip_if_not_pressed(0).unwrap();
    assert_eq!(e.pc(), pc0 + 2);
    e.set_key(0x5, true);
    e.skip_if_pressed(0).unwrap();
    assert_eq!(e.pc(), pc0 + 4);
    e.skip_if_not_pressed(0).unwrap();
    assert_eq!(e.pc(), pc0 + 4);
    e.clear_keys();
    e.skip_if_not_pressed(0).unwrap();
    assert_eq!(e.pc(), pc0 + 6);
}

#[test]
fn key_skip_rejects_bad_key_number() {
    let mut e = Emulator::new(&[]).unwrap();
    e.set_register_to(0, 200);
    assert_eq!(e.skip_if_pressed(0).unwrap_err(), VmError::OutOfBounds { addr: 200 });
    assert_eq!(e.skip_if_not_pressed(0).unwrap_err(), VmError::OutOfBounds { addr: 200 });
}

#[test]
fn skip_instructions_advance_exactly_on_condition() {
    let mut e = Emulator::new(&[]).unwrap();
    let pc0 = e.pc();
    e.set_register_to(0, 7);
    e.skip_if_variable_is_equal_to(0, 7);
    assert_eq!(e.pc(), pc0 + 2);
    e.skip_if_variable_is_equal_to(0, 8);
    assert_eq!(e.pc(), pc0 + 2);
    e.skip_if_variable_is_not_equal_to(0, 8);
    assert_eq!(e.pc(), pc0 + 4);
    e.skip_if_variable_is_not_equal_to(0, 7);
    assert_eq!(e.pc(), pc0 + 4);
    e.set_register_to(1, 7);
    e.skip_if_variables_equal(0, 1);
    assert_eq!(e.pc(), pc0 + 6);
    e.set_register_to(1, 9);
    e.skip_if_variables_equal(0, 1);
    assert_eq!(e.pc(), pc0 + 6);
    e.skip_if_variables_not_equal(0, 1);
    assert_eq!(e.pc(), pc0 + 8);
    e.set_register_to(1, 7);
    e.skip_if_variables_not_equal(0, 1);
    assert_eq!(e.pc(), pc0 + 8);
}

#[test]
fn get_key_press_takes_lowest_pressed_key() {
    let mut e = Emulator::new(&[]).unwrap();
    let pc0 = e.pc();
    e.get_key_press(6);
    assert_eq!(e.pc(), pc0 - 2);
    assert!(e.is_waiting());
    e.set_key(0xB, true);
    e.set_key(0x4, true);
    e.get_key_press(6);
    assert_eq!(e.reg(6), 0x4);
    assert!(!e.is_waiting());
    assert_eq!(e.pc(), pc0 - 2);
}

#[test]
fn latch_queries() {
    let mut e = Emulator::new(&[]).unwrap();
    assert_eq!(e.any_pressed(), None);
    assert!(!e.is_pressed(0x9));
    e.set_key(0x9, true);
    e.set_key(0x3, true);
    assert!(e.is_pressed(0x9));
    assert!(e.is_pressed(0x3));
    assert!(!e.is_pressed(0x4));
    // the lowest pressed key wins
    assert_eq!(e.any_pressed(), Some(0x3));
    e.clear_keys();
    assert_eq!(e.any_pressed(), None);
}

#[test]
fn random_result_is_masked_by_nn() {
    let mut e = Emulator::new(&[]).unwrap();
    e.bitwise_and_with_random(2, 0x0F);
    assert!(e.reg(2) <= 0x0F);
    e.bitwise_and_with_random(2, 0x00);
    assert_eq!(e.reg(2), 0);
    e.bitwise_and_with_byte(2, 0x0F, 0xAB);
    assert_eq!(e.reg(2), 0x0B);
}
