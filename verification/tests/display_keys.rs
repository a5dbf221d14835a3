//! The display instructions and the keypad.

use emu_core::machine::VirtualMachine;
use emu_core::state::{SCREEN_WIDTH, SCREEN_HEIGHT, ADDR_START};

#[test]
fn clear_display_all_dark() {
    let mut vm = VirtualMachine::new();
    vm.write(0x300, 0xFF);
    vm.set_index_register(0x300);
    vm.inst_DXYN(0, 1, 1);
    assert!(vm.get_display().iter().any(|p| *p));
    vm.inst_00E0();
    let display = vm.get_display();
    assert_eq!(display.len(), SCREEN_WIDTH * SCREEN_HEIGHT);
    assert!(display.iter().all(|p| !p));
}

#[test]
fn draw_single_row() {
    let mut vm = VirtualMachine::new();
    // One row, bits 10110001.
    vm.write(0x300, 0xB1);
    vm.set_index_register(0x300);
    vm.set_register(0, 4);
    vm.set_register(1, 2);
    vm.inst_DXYN(0, 1, 1);
    let lit = [true, false, true, true, false, false, false, true];
    for (c, want) in lit.iter().enumerate() {
        assert_eq!(vm.get_display_pixel(4 + c, 2), *want);
    }
    // Nothing was lit before, so no collision.
    assert_eq!(vm.get_register(0xF), 0);
    // Row-major flat order agrees with the pixel accessor.
    assert_eq!(vm.get_display()[2 * SCREEN_WIDTH + 4], true);
}

#[test]
fn draw_twice_restores_display() {
    let mut vm = VirtualMachine::new();
    vm.write(0x300, 0x3C);
    vm.write(0x301, 0xC3);
    vm.set_index_register(0x300);
    vm.set_register(0, 10);
    vm.set_register(1, 5);
    vm.inst_DXYN(0, 1, 2);
    assert_eq!(vm.get_register(0xF), 0);
    assert!(vm.get_display().iter().any(|p| *p));

    vm.inst_DXYN(0, 1, 2);
    // Every pixel is back to its original state, and unsetting the
    // pixels the first draw lit reports a collision.
    assert!(vm.get_display().iter().all(|p| !p));
    assert_eq!(vm.get_register(0xF), 1);
}

#[test]
fn draw_reports_collision_only_on_overlap() {
    let mut vm = VirtualMachine::new();
    vm.write(0x300, 0xF0);
    vm.set_index_register(0x300);
    vm.set_register(0, 0);
    vm.set_register(1, 0);
    vm.inst_DXYN(0, 1, 1);
    assert_eq!(vm.get_register(0xF), 0);

    // A sprite drawn fully beside the first one collides with nothing.
    vm.set_register(0, 8);
    vm.inst_DXYN(0, 1, 1);
    assert_eq!(vm.get_register(0xF), 0);

    // A sprite overlapping the first one reports the collision and
    // turns the shared pixels off.
    vm.set_register(0, 2);
    vm.inst_DXYN(0, 1, 1);
    assert_eq!(vm.get_register(0xF), 1);
    assert_eq!(vm.get_display_pixel(2, 0), false);
    assert_eq!(vm.get_display_pixel(3, 0), false);
}

#[test]
fn draw_wraps_at_screen_edges() {
    let mut vm = VirtualMachine::new();
    vm.write(0x300, 0xFF);
    vm.write(0x301, 0xFF);
    vm.set_index_register(0x300);
    vm.set_register(0, (SCREEN_WIDTH - 4) as u8);
    vm.set_register(1, (SCREEN_HEIGHT - 1) as u8);
    vm.inst_DXYN(0, 1, 2);
    // The row wraps horizontally...
    assert!(vm.get_display_pixel(SCREEN_WIDTH - 4, SCREEN_HEIGHT - 1));
    assert!(vm.get_display_pixel(3, SCREEN_HEIGHT - 1));
    // ...and the second row wraps back to the top.
    assert!(vm.get_display_pixel(SCREEN_WIDTH - 4, 0));
    assert!(vm.get_display_pixel(3, 0));
}

#[test]
fn key_skip_if_pressed() {
    let mut vm = VirtualMachine::new();
    vm.set_register(0, 0x5);
    vm.inst_EX9E(0);
    assert_eq!(vm.get_program_counter(), ADDR_START);
    vm.set_key(0x5, true);
    vm.inst_EX9E(0);
    assert_eq!(vm.get_program_counter(), ADDR_START + 2);
}

#[test]
fn key_skip_if_not_pressed() {
    let mut vm = VirtualMachine::new();
    vm.set_register(0, 0x5);
    vm.inst_EXA1(0);
    assert_eq!(vm.get_program_counter(), ADDR_START + 2);
    vm.set_key(0x5, true);
    vm.inst_EXA1(0);
    assert_eq!(vm.get_program_counter(), ADDR_START + 2);
}

#[test]
fn key_wait_blocks_until_pressed() {
    let mut vm = VirtualMachine::new();
    vm.load_rom(&[0xF0, 0x0A]);
    // With no key pressed the program counter never moves.
    vm.execute();
    assert_eq!(vm.get_program_counter(), ADDR_START);
    vm.execute();
    vm.execute();
    assert_eq!(vm.get_program_counter(), ADDR_START);

    vm.set_key(0x7, true);
    vm.execute();
    assert_eq!(vm.get_program_counter(), ADDR_START + 2);
    assert_eq!(vm.get_register(0), 0x7);
}

#[test]
fn key_wait_picks_lowest_pressed_key() {
    let mut vm = VirtualMachine::new();
    vm.set_key(0xC, true);
    vm.set_key(0x3, true);
    vm.inst_FX0A(6);
    assert_eq!(vm.get_register(6), 0x3);
    assert_eq!(vm.get_program_counter(), ADDR_START);
}

#[test]
fn key_release_observed() {
    let mut vm = VirtualMachine::new();
    vm.set_register(0, 0x2);
    vm.set_key(0x2, true);
    vm.set_key(0x2, false);
    vm.inst_EX9E(0);
    assert_eq!(vm.get_program_counter(), ADDR_START);
}

#[test]
fn draw_reads_sprite_through_font_table() {
    let mut vm = VirtualMachine::new();
    // Glyph 0 occupies bytes 0..5; its first row is 0xF0.
    vm.set_register(0, 0x0);
    vm.inst_FX29(0);
    vm.set_register(2, 0);
    vm.set_register(3, 0);
    vm.inst_DXYN(2, 3, 5);
    assert!(vm.get_display_pixel(0, 0));
    assert!(vm.get_display_pixel(3, 0));
    assert!(!vm.get_display_pixel(4, 0));
    // The glyph's hollow middle: edges lit, center dark.
    assert!(vm.get_display_pixel(0, 2));
    assert!(!vm.get_display_pixel(1, 2));
}
