use chip8::chip8::{classify_rom, Chip8, Report, RomFit};
use chip8::model::Signal;

const FONT: [u8; 80] = [
    0xF0, 0x90, 0x90, 0x90, 0xF0, 0x20, 0x60, 0x20, 0x20, 0x70, 0xF0, 0x10, 0xF0, 0x80, 0xF0, 0xF0,
    0x10, 0xF0, 0x10, 0xF0, 0x90, 0x90, 0xF0, 0x10, 0x10, 0xF0, 0x80, 0xF0, 0x10, 0xF0, 0xF0, 0x80,
    0xF0, 0x90, 0xF0, 0xF0, 0x10, 0x20, 0x40, 0x40, 0xF0, 0x90, 0xF0, 0x90, 0xF0, 0xF0, 0x90, 0xF0,
    0x10, 0xF0, 0xF0, 0x90, 0xF0, 0x90, 0x90, 0xE0, 0x90, 0xE0, 0x90, 0xE0, 0xF0, 0x80, 0x80, 0x80,
    0xF0, 0xE0, 0x90, 0x90, 0x90, 0xE0, 0xF0, 0x80, 0xF0, 0x80, 0xF0, 0xF0, 0x80, 0xF0, 0x80, 0x80,
];

fn run(machine: &mut Chip8, opcodes: &[u16]) {
    for &op in opcodes {
        assert_eq!(machine.execute_opcode(op, 0), Signal::Executed);
    }
}

#[test]
fn new_machine_is_zeroed_with_font_and_start_address() {
    let m = Chip8::new();
    assert_eq!(m.pc(), 0x200);
    assert_eq!(m.index(), 0);
    assert_eq!(m.sp(), 0);
    assert_eq!(m.delay_timer(), 0);
    assert_eq!(m.sound_timer(), 0);
    assert_eq!(*m.registers(), [0u8; 16]);
    assert_eq!(*m.stack(), [0u16; 16]);
    assert_eq!(*m.keypad(), [false; 16]);
    assert!(m.gfx.iter().all(|&c| c == 0));
    assert!(!m.draw_flag);
    assert!(!m.is_dirty());
    for (a, &byte) in m.memory().iter().enumerate() {
        if (0x50..0x50 + 80).contains(&a) {
            assert_eq!(byte, FONT[a - 0x50]);
        } else {
            assert_eq!(byte, 0);
        }
    }
}

#[test]
fn every_glyph_sits_at_font_base_plus_five_times_digit() {
    let m = Chip8::new();
    for digit in 0..16usize {
        let at = 0x50 + digit * 5;
        assert_eq!(&m.memory()[at..at + 5], &FONT[digit * 5..digit * 5 + 5]);
    }
    assert_eq!(&m.memory()[0x50..0x55], &[0xF0, 0x90, 0x90, 0x90, 0xF0]);
    assert_eq!(&m.memory()[0x50 + 75..0x50 + 80], &[0xF0, 0x80, 0xF0, 0x80, 0x80]);
}

#[test]
fn load_fontset_restores_overwritten_glyphs() {
    let mut m = Chip8::new();
    run(&mut m, &[0xA050, 0x60FF, 0xF033]);
    assert_eq!(&m.memory()[0x50..0x53], &[2, 5, 5]);
    m.load_fontset();
    assert_eq!(&m.memory()[0x50..0x55], &[0xF0, 0x90, 0x90, 0x90, 0xF0]);
}

#[test]
fn load_rom_copies_bytes_to_program_start() {
    let mut m = Chip8::new();
    m.load_rom(&[0x60, 0x05, 0x70, 0x03]);
    assert_eq!(&m.memory()[0x200..0x204], &[0x60, 0x05, 0x70, 0x03]);
    assert_eq!(m.memory()[0x204], 0);
    assert_eq!(m.memory()[0x1FF], 0);
    assert_eq!(m.pc(), 0x200);
}

#[test]
fn load_rom_drops_bytes_past_the_end_of_memory() {
    let mut m = Chip8::new();
    let rom: Vec<u8> = (0..4000usize).map(|k| (k % 251) as u8 + 1).collect();
    m.load_rom(&rom);
    for k in 0..3584usize {
        assert_eq!(m.memory()[0x200 + k], rom[k]);
    }
    assert_eq!(m.memory()[4095], rom[3583]);
    assert_eq!(&m.memory()[0x50..0x55], &[0xF0, 0x90, 0x90, 0x90, 0xF0]);
}

#[test]
fn load_rom_of_nothing_changes_nothing() {
    let mut m = Chip8::new();
    m.load_rom(&[]);
    assert_eq!(*m.memory(), *Chip8::new().memory());
}

#[test]
fn classify_rom_tells_empty_fitting_and_oversized() {
    assert_eq!(classify_rom(&[]), RomFit::Empty);
    assert_eq!(classify_rom(&[1]), RomFit::Fits);
    assert_eq!(classify_rom(&vec![0u8; 3584]), RomFit::Fits);
    assert_eq!(classify_rom(&vec![0u8; 3585]), RomFit::Oversized);
}

#[test]
fn two_instruction_program_adds_to_eight() {
    let mut m = Chip8::new();
    m.load_rom(&[0x60, 0x05, 0x70, 0x03]);
    let first = m.emulate_cycle();
    assert_eq!(first, Report { opcode: 0x6005, signal: Signal::Executed, beep: false });
    let second = m.emulate_cycle();
    assert_eq!(second.opcode, 0x7003);
    assert_eq!(m.registers()[0], 8);
    assert_eq!(m.pc(), 0x204);
}

#[test]
fn drawing_digit_zero_shows_its_glyph_top_left() {
    let mut m = Chip8::new();
    m.load_rom(&[0xA0, 0x50, 0xD0, 0x05]);
    m.emulate_cycle();
    assert!(!m.draw_flag);
    m.emulate_cycle();
    assert!(m.draw_flag);
    assert!(m.is_dirty());
    let glyph: [u8; 5] = [0xF0, 0x90, 0x90, 0x90, 0xF0];
    for y in 0..32usize {
        for x in 0..64usize {
            let expected = if y < 5 && x < 8 { (glyph[y] >> (7 - x)) & 1 } else { 0 };
            assert_eq!(m.gfx[y * 64 + x], expected);
            assert_eq!(m.pixel(x, y), expected);
        }
    }
    assert_eq!(m.registers()[0xF], 0);
    assert_eq!(m.pc(), 0x204);
    assert_eq!(m.index(), 0x50);
}

#[test]
fn add_immediate_twice_wraps_modulo_256() {
    let mut m = Chip8::new();
    run(&mut m, &[0x63C8, 0x7364, 0x7350]);
    assert_eq!(m.registers()[3], ((200u32 + 100 + 80) % 256) as u8);
    assert_eq!(m.registers()[3], 124);
    assert_eq!(m.registers()[0xF], 0);
    assert_eq!(m.pc(), 0x206);
}

#[test]
fn add_registers_sets_carry_only_past_255() {
    let mut m = Chip8::new();
    run(&mut m, &[0x61F0, 0x6220, 0x8124]);
    assert_eq!(m.registers()[1], 0x10);
    assert_eq!(m.registers()[0xF], 1);
    run(&mut m, &[0x61F0, 0x620F, 0x8124]);
    assert_eq!(m.registers()[1], 0xFF);
    assert_eq!(m.registers()[0xF], 0);
}

#[test]
fn sub_sets_flag_when_vx_exceeds_vy() {
    let mut m = Chip8::new();
    run(&mut m, &[0x6105, 0x6203, 0x8125]);
    assert_eq!(m.registers()[1], 2);
    assert_eq!(m.registers()[0xF], 1);
    run(&mut m, &[0x6103, 0x6205, 0x8125]);
    assert_eq!(m.registers()[1], 254);
    assert_eq!(m.registers()[0xF], 0);
    run(&mut m, &[0x6107, 0x6207, 0x8125]);
    assert_eq!(m.registers()[1], 0);
    assert_eq!(m.registers()[0xF], 0);
}

#[test]
fn subn_subtracts_vx_from_vy() {
    let mut m = Chip8::new();
    run(&mut m, &[0x6103, 0x6205, 0x8127]);
    assert_eq!(m.registers()[1], 2);
    assert_eq!(m.registers()[0xF], 1);
    run(&mut m, &[0x6105, 0x6203, 0x8127]);
    assert_eq!(m.registers()[1], 254);
    assert_eq!(m.registers()[0xF], 0);
}

#[test]
fn shifts_read_only_vx_and_put_the_lost_bit_in_vf() {
    let mut m = Chip8::new();
    run(&mut m, &[0x6105, 0x62FF, 0x8126]);
    assert_eq!(m.registers()[1], 2);
    assert_eq!(m.registers()[2], 0xFF);
    assert_eq!(m.registers()[0xF], 1);
    run(&mut m, &[0x6104, 0x8136]);
    assert_eq!(m.registers()[1], 2);
    assert_eq!(m.registers()[0xF], 0);
    run(&mut m, &[0x6181, 0x6200, 0x812E]);
    assert_eq!(m.registers()[1], 0x02);
    assert_eq!(m.registers()[0xF], 1);
    run(&mut m, &[0x6141, 0x81FE]);
    assert_eq!(m.registers()[1], 0x82);
    assert_eq!(m.registers()[0xF], 0);
}

#[test]
fn assign_or_and_xor() {
    let mut m = Chip8::new();
    run(&mut m, &[0x61CC, 0x62AA, 0x8321, 0x8310]);
    assert_eq!(m.registers()[3], 0xCC);
    run(&mut m, &[0x8320]);
    assert_eq!(m.registers()[3], 0xAA);
    run(&mut m, &[0x8311]);
    assert_eq!(m.registers()[3], 0xEE);
    run(&mut m, &[0x8322]);
    assert_eq!(m.registers()[3], 0xAA);
    run(&mut m, &[0x8313]);
    assert_eq!(m.registers()[3], 0x66);
}

#[test]
fn unknown_alu_operation_is_signalled_and_stepped_over() {
    let mut m = Chip8::new();
    run(&mut m, &[0x6105]);
    assert_eq!(m.execute_opcode(0x8128, 0), Signal::UnknownOpcode);
    assert_eq!(m.registers()[1], 5);
    assert_eq!(m.pc(), 0x204);
}

#[test]
fn unknown_opcodes_advance_by_two() {
    let mut m = Chip8::new();
    assert_eq!(m.execute_opcode(0x0000, 0), Signal::UnknownOpcode);
    assert_eq!(m.pc(), 0x202);
    assert_eq!(m.execute_opcode(0xE000, 0), Signal::UnknownOpcode);
    assert_eq!(m.pc(), 0x204);
    assert_eq!(m.execute_opcode(0xF0FF, 0), Signal::UnknownOpcode);
    assert_eq!(m.pc(), 0x206);
    let report = m.emulate_cycle();
    assert_eq!(report, Report { opcode: 0, signal: Signal::UnknownOpcode, beep: false });
    assert_eq!(m.pc(), 0x208);
}

#[test]
fn drawing_twice_erases_and_reports_collision() {
    let mut m = Chip8::new();
    run(&mut m, &[0x600A, 0x6107, 0xA05A, 0xD015]);
    assert_eq!(m.registers()[0xF], 0);
    assert_eq!(m.gfx.iter().filter(|&&c| c == 1).count(), 14);
    m.draw_flag = false;
    run(&mut m, &[0xD015]);
    assert_eq!(m.registers()[0xF], 1);
    assert!(m.gfx.iter().all(|&c| c == 0));
    assert!(m.draw_flag);
}

#[test]
fn sprite_at_last_column_wraps_to_column_zero() {
    let mut m = Chip8::new();
    run(&mut m, &[0x603F, 0x6100, 0xA050, 0xD011]);
    assert_eq!(m.gfx[63], 1);
    assert_eq!(m.gfx[0], 1);
    assert_eq!(m.gfx[1], 1);
    assert_eq!(m.gfx[2], 1);
    assert_eq!(m.gfx[3], 0);
    assert_eq!(m.gfx[64], 0);
    assert_eq!(m.gfx.iter().filter(|&&c| c == 1).count(), 4);
}

#[test]
fn sprite_at_last_row_wraps_to_row_zero() {
    let mut m = Chip8::new();
    run(&mut m, &[0x6000, 0x611F, 0xA050, 0xD012]);
    assert_eq!(&m.gfx[31 * 64..31 * 64 + 8], &[1, 1, 1, 1, 0, 0, 0, 0]);
    assert_eq!(&m.gfx[0..8], &[1, 0, 0, 1, 0, 0, 0, 0]);
}

#[test]
fn sprite_coordinates_wrap_before_drawing() {
    let mut m = Chip8::new();
    run(&mut m, &[0x6040, 0x6120, 0xA050, 0xD011]);
    assert_eq!(&m.gfx[0..8], &[1, 1, 1, 1, 0, 0, 0, 0]);
}

#[test]
fn empty_sprite_still_marks_the_framebuffer_dirty() {
    let mut m = Chip8::new();
    run(&mut m, &[0xA300, 0xD015]);
    assert!(m.draw_flag);
    assert!(m.gfx.iter().all(|&c| c == 0));
    assert_eq!(m.registers()[0xF], 0);
    m.draw_flag = false;
    run(&mut m, &[0xD010]);
    assert!(m.draw_flag);
}

#[test]
fn clear_screen_zeroes_every_cell_and_marks_dirty() {
    let mut m = Chip8::new();
    run(&mut m, &[0xA050, 0xD005]);
    m.draw_flag = false;
    run(&mut m, &[0x00E0]);
    assert!(m.gfx.iter().all(|&c| c == 0));
    assert!(m.draw_flag);
    assert_eq!(m.pc(), 0x206);
}

#[test]
fn call_then_return_lands_after_the_call() {
    let mut m = Chip8::new();
    run(&mut m, &[0x2ABC]);
    assert_eq!(m.pc(), 0xABC);
    assert_eq!(m.sp(), 1);
    assert_eq!(m.stack()[0], 0x200);
    run(&mut m, &[0x00EE]);
    assert_eq!(m.pc(), 0x202);
    assert_eq!(m.sp(), 0);
}

#[test]
fn return_on_empty_stack_is_signalled() {
    let mut m = Chip8::new();
    assert_eq!(m.execute_opcode(0x00EE, 0), Signal::StackUnderflow);
    assert_eq!(m.pc(), 0x202);
    assert_eq!(m.sp(), 0);
}

#[test]
fn seventeenth_call_is_signalled() {
    let mut m = Chip8::new();
    for depth in 0..16u8 {
        assert_eq!(m.sp(), depth);
        assert_eq!(m.execute_opcode(0x2300, 0), Signal::Executed);
    }
    assert_eq!(m.sp(), 16);
    assert_eq!(m.execute_opcode(0x2400, 0), Signal::StackOverflow);
    assert_eq!(m.sp(), 16);
    assert_eq!(m.pc(), 0x302);
    assert_eq!(m.stack()[15], 0x300);
}

#[test]
fn jumps_set_the_program_counter() {
    let mut m = Chip8::new();
    run(&mut m, &[0x1ABC]);
    assert_eq!(m.pc(), 0xABC);
    run(&mut m, &[0x60FF, 0xBFFF]);
    assert_eq!(m.pc(), 0xFFF + 0xFF);
}

#[test]
fn conditional_skips() {
    let mut m = Chip8::new();
    run(&mut m, &[0x6111, 0x6211, 0x6322]);
    assert_eq!(m.pc(), 0x206);
    run(&mut m, &[0x3111]);
    assert_eq!(m.pc(), 0x20A);
    run(&mut m, &[0x3112]);
    assert_eq!(m.pc(), 0x20C);
    run(&mut m, &[0x4111]);
    assert_eq!(m.pc(), 0x20E);
    run(&mut m, &[0x4112]);
    assert_eq!(m.pc(), 0x212);
    run(&mut m, &[0x5120]);
    assert_eq!(m.pc(), 0x216);
    run(&mut m, &[0x5130]);
    assert_eq!(m.pc(), 0x218);
    run(&mut m, &[0x9120]);
    assert_eq!(m.pc(), 0x21A);
    run(&mut m, &[0x9130]);
    assert_eq!(m.pc(), 0x21E);
}

#[test]
fn key_skips_read_the_key_that_vx_names() {
    let mut m = Chip8::new();
    let mut keys = [false; 16];
    keys[7] = true;
    m.set_keys(keys);
    assert_eq!(*m.keypad(), keys);
    run(&mut m, &[0x6107, 0x6208, 0xE19E]);
    assert_eq!(m.pc(), 0x208);
    run(&mut m, &[0xE29E]);
    assert_eq!(m.pc(), 0x20A);
    run(&mut m, &[0xE1A1]);
    assert_eq!(m.pc(), 0x20C);
    run(&mut m, &[0xE2A1]);
    assert_eq!(m.pc(), 0x210);
    assert_eq!(*m.keypad(), keys);
}

#[test]
fn key_index_above_fifteen_is_never_pressed() {
    let mut m = Chip8::new();
    m.set_keys([true; 16]);
    run(&mut m, &[0x6110, 0xE19E]);
    assert_eq!(m.pc(), 0x204);
    run(&mut m, &[0xE1A1]);
    assert_eq!(m.pc(), 0x208);
}

#[test]
fn key_wait_blocks_until_a_key_is_pressed() {
    let mut m = Chip8::new();
    m.load_rom(&[0xF3, 0x0A]);
    for _ in 0..5 {
        let report = m.emulate_cycle();
        assert_eq!(report.opcode, 0xF30A);
        assert_eq!(report.signal, Signal::Executed);
        assert_eq!(m.pc(), 0x200);
        assert_eq!(m.registers()[3], 0);
    }
    let mut keys = [false; 16];
    keys[0xB] = true;
    keys[0xE] = true;
    m.set_keys(keys);
    m.emulate_cycle();
    assert_eq!(m.registers()[3], 0xB);
    assert_eq!(m.pc(), 0x202);
}

#[test]
fn key_wait_takes_key_zero() {
    let mut m = Chip8::new();
    run(&mut m, &[0x6509]);
    m.set_keys([true; 16]);
    run(&mut m, &[0xF50A]);
    assert_eq!(m.registers()[5], 0);
    assert_eq!(m.pc(), 0x204);
}

#[test]
fn timers_count_down_once_per_cycle_and_stop_at_zero() {
    let mut m = Chip8::new();
    m.load_rom(&[0x60, 0x03, 0xF0, 0x15, 0xF0, 0x18, 0xF1, 0x07]);
    assert!(!m.emulate_cycle().beep);
    assert!(!m.emulate_cycle().beep);
    assert_eq!(m.delay_timer(), 2);
    assert!(!m.emulate_cycle().beep);
    assert_eq!(m.delay_timer(), 1);
    assert_eq!(m.sound_timer(), 2);
    assert!(!m.emulate_cycle().beep);
    assert_eq!(m.registers()[1], 1);
    assert_eq!(m.delay_timer(), 0);
    assert_eq!(m.sound_timer(), 1);
    assert!(m.emulate_cycle().beep);
    assert_eq!(m.delay_timer(), 0);
    assert_eq!(m.sound_timer(), 0);
    assert!(!m.emulate_cycle().beep);
    assert_eq!(m.delay_timer(), 0);
    assert_eq!(m.sound_timer(), 0);
}

#[test]
fn index_register_instructions() {
    let mut m = Chip8::new();
    run(&mut m, &[0xAFFF, 0x60FF, 0xF01E]);
    assert_eq!(m.index(), 0xFFF + 0xFF);
    run(&mut m, &[0x610A, 0xF129]);
    assert_eq!(m.index(), 0x50 + 50);
    run(&mut m, &[0xF029]);
    assert_eq!(m.index(), 0x50 + 255 * 5);
}

#[test]
fn index_register_wraps_at_sixteen_bits() {
    let mut m = Chip8::new();
    run(&mut m, &[0xAFFF, 0x60FF]);
    for _ in 0..241 {
        run(&mut m, &[0xF01E]);
    }
    assert_eq!(m.index(), ((0xFFFu32 + 241 * 255) % 65536) as u16);
    assert_eq!(m.index(), 14);
}

#[test]
fn bcd_stores_hundreds_tens_units() {
    let mut m = Chip8::new();
    run(&mut m, &[0x60EA, 0xA300, 0xF033]);
    assert_eq!(&m.memory()[0x300..0x303], &[2, 3, 4]);
    run(&mut m, &[0x6007, 0xF033]);
    assert_eq!(&m.memory()[0x300..0x303], &[0, 0, 7]);
    assert_eq!(m.index(), 0x300);
}

#[test]
fn memory_addresses_wrap_modulo_4096() {
    let mut m = Chip8::new();
    run(&mut m, &[0x607B, 0xAFFF, 0xF033]);
    assert_eq!(m.memory()[0xFFF], 1);
    assert_eq!(m.memory()[0], 2);
    assert_eq!(m.memory()[1], 3);
}

#[test]
fn store_and_load_registers_inclusive() {
    let mut m = Chip8::new();
    run(&mut m, &[0x6011, 0x6122, 0x6233, 0x6344, 0xA400, 0xF255]);
    assert_eq!(&m.memory()[0x400..0x404], &[0x11, 0x22, 0x33, 0]);
    assert_eq!(m.index(), 0x400);
    run(&mut m, &[0x6000, 0x6100, 0x6200, 0x6300, 0xF165]);
    assert_eq!(&m.registers()[0..4], &[0x11, 0x22, 0, 0]);
    run(&mut m, &[0xA050, 0xFF65]);
    assert_eq!(&m.registers()[..], &FONT[0..16]);
}

#[test]
fn random_byte_is_masked_by_kk() {
    let mut m = Chip8::new();
    run(&mut m, &[0x61FF]);
    assert_eq!(m.execute_opcode(0xC10F, 0xAB), Signal::Executed);
    assert_eq!(m.registers()[1], 0x0B);
    assert_eq!(m.pc(), 0x204);
}

#[test]
fn emulate_cycle_draws_a_random_byte_for_cxkk() {
    let mut program: Vec<u8> = Vec::new();
    for _ in 0..400 {
        program.extend_from_slice(&[0xC1, 0xFF, 0xC2, 0x0F, 0xC3, 0x00]);
    }
    let mut m = Chip8::new();
    m.load_rom(&program);
    run(&mut m, &[0x63FF]);
    run(&mut m, &[0x1200]);
    let mut seen = [false; 256];
    for _ in 0..400 {
        m.emulate_cycle();
        seen[m.registers()[1] as usize] = true;
        m.emulate_cycle();
        assert!(m.registers()[2] <= 0x0F);
        m.emulate_cycle();
        assert_eq!(m.registers()[3], 0);
    }
    assert!(seen.iter().filter(|&&s| s).count() > 1);
    assert_eq!(m.pc(), 0x200 + 2400);
}

#[test]
fn cycle_with_equals_fetch_execute_tick() {
    let mut a = Chip8::new();
    a.load_rom(&[0xC1, 0xF0, 0x71, 0x01]);
    let report = a.cycle_with(0x5A);
    assert_eq!(report, Report { opcode: 0xC1F0, signal: Signal::Executed, beep: false });
    assert_eq!(a.registers()[1], 0x50);
    assert_eq!(a.fetch_opcode(), 0x7101);
    a.cycle_with(0xFF);
    assert_eq!(a.registers()[1], 0x51);
}

#[test]
fn program_counter_wraps_at_sixteen_bits() {
    let mut m = Chip8::new();
    run(&mut m, &[0x60FF, 0xBFFF]);
    for _ in 0..(65536 - 0x10FE) / 2 {
        run(&mut m, &[0x6000]);
    }
    assert_eq!(m.pc(), 0);
    assert_eq!(m.fetch_opcode(), 0);
}

#[test]
fn flag_register_as_operand_follows_write_order() {
    let mut m = Chip8::new();
    run(&mut m, &[0x6FF0, 0x6120, 0x8F14]);
    assert_eq!(m.registers()[0xF], 0x10);
    run(&mut m, &[0x6F05, 0x6103, 0x8F15]);
    assert_eq!(m.registers()[0xF], 254);
    run(&mut m, &[0x6F03, 0x8F06]);
    assert_eq!(m.registers()[0xF], 0);
}

#[test]
fn framebuffer_cells_stay_zero_or_one_and_stack_pointer_in_range() {
    let mut m = Chip8::new();
    m.load_rom(&[0xA0, 0x50, 0xD0, 0x05, 0x70, 0x03, 0x71, 0x02, 0x22, 0x02]);
    for _ in 0..200 {
        m.emulate_cycle();
        assert!(m.gfx.iter().all(|&c| c <= 1));
        assert!(m.sp() <= 16);
    }
    assert_eq!(m.sp(), 16);
}

#[test]
fn only_cxkk_reads_the_random_byte() {
    for &op in &[0x00E0u16, 0x1234, 0x2345, 0x6A12, 0x7A12, 0x8AB4, 0xA123, 0xD125, 0xFA33] {
        let mut a = Chip8::new();
        let mut b = Chip8::new();
        assert_eq!(a.execute_opcode(op, 0x00), b.execute_opcode(op, 0xFF));
        assert_eq!(a.pc(), b.pc());
        assert_eq!(a.index(), b.index());
        assert_eq!(a.sp(), b.sp());
        assert_eq!(*a.registers(), *b.registers());
        assert_eq!(*a.memory(), *b.memory());
        assert_eq!(a.gfx, b.gfx);
    }
    let mut a = Chip8::new();
    let mut b = Chip8::new();
    a.execute_opcode(0xC1FF, 0x00);
    b.execute_opcode(0xC1FF, 0xFF);
    assert_eq!(a.registers()[1], 0x00);
    assert_eq!(b.registers()[1], 0xFF);
}

#[test]
fn clear_draw_flag_resets_only_the_flag() {
    let mut m = Chip8::new();
    run(&mut m, &[0xA050, 0xD005]);
    let shown = m.gfx;
    assert!(m.is_dirty());
    m.clear_draw_flag();
    assert!(!m.is_dirty());
    assert!(!m.draw_flag);
    assert_eq!(m.gfx, shown);
    assert_eq!(m.pc(), 0x204);
}

#[test]
fn font_table_holds_the_sixteen_glyphs() {
    assert_eq!(chip8::font::font_table(), FONT);
    assert_eq!(chip8::font::FONT_BASE, 0x50);
    assert_eq!(chip8::model::PROGRAM_START, 0x200);
    assert_eq!(chip8::model::WIDTH * chip8::model::HEIGHT, 2048);
}

#[test]
fn sub_with_flag_register_as_vy_uses_its_old_value() {
    let mut m = Chip8::new();
    run(&mut m, &[0x6005, 0x6F03, 0x6177, 0x80F5]);
    assert_eq!(m.registers()[0], 2);
    assert_eq!(m.registers()[0xF], 1);
    assert_eq!(m.registers()[1], 0x77);
    assert_eq!(m.pc(), 0x208);
    run(&mut m, &[0x6003, 0x6F05, 0x80F5]);
    assert_eq!(m.registers()[0], 254);
    assert_eq!(m.registers()[0xF], 0);
    run(&mut m, &[0x6000, 0x6F00, 0x80F5]);
    assert_eq!(m.registers()[0], 0);
    assert_eq!(m.registers()[0xF], 0);
}

#[test]
fn subn_with_flag_register_as_vy_uses_its_old_value() {
    let mut m = Chip8::new();
    run(&mut m, &[0x6003, 0x6F05, 0x80F7]);
    assert_eq!(m.registers()[0], 2);
    assert_eq!(m.registers()[0xF], 1);
    run(&mut m, &[0x6005, 0x6F03, 0x80F7]);
    assert_eq!(m.registers()[0], 254);
    assert_eq!(m.registers()[0xF], 0);
}

#[test]
fn add_with_flag_register_as_vy_uses_its_old_value() {
    let mut m = Chip8::new();
    run(&mut m, &[0x60F0, 0x6F20, 0x80F4]);
    assert_eq!(m.registers()[0], 0x10);
    assert_eq!(m.registers()[0xF], 1);
}
