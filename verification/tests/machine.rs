//! Machine lifecycle: construction, reset, program loading, fetch and
//! control flow, block transfers, and the timers.

use emu_core::machine::VirtualMachine;
use emu_core::state::{RAM_SIZE, SCREEN_WIDTH, SCREEN_HEIGHT, ADDR_START, FONT_BYTES, STACK_DEPTH};

#[test]
fn fresh_machine_state() {
    let vm = VirtualMachine::new();
    assert_eq!(vm.get_program_counter(), ADDR_START);
    assert_eq!(vm.get_index_register(), 0);
    assert_eq!(vm.get_stack_pointer(), 0);
    assert_eq!(vm.get_delay_timer(), 0);
    assert_eq!(vm.get_sound_timer(), 0);
    for r in 0..16 {
        assert_eq!(vm.get_register(r), 0);
    }
    let display = vm.get_display();
    assert_eq!(display.len(), SCREEN_WIDTH * SCREEN_HEIGHT);
    assert!(display.iter().all(|p| !p));
    // The font table starts with glyph 0 and ends with glyph F.
    assert_eq!(vm.read(0), 0xF0);
    assert_eq!(vm.read(4), 0xF0);
    assert_eq!(vm.read(79), 0x80);
    assert_eq!(vm.read(80), 0);
}

#[test]
fn load_rom_round_trip() {
    let mut vm = VirtualMachine::new();
    let rom: Vec<u8> = vec![0xDE, 0xAD, 0xBE, 0xEF, 0x42];
    vm.load_rom(&rom);
    for (i, b) in rom.iter().enumerate() {
        assert_eq!(vm.read(ADDR_START + i as u16), *b);
    }
    // Memory just past the image is untouched.
    assert_eq!(vm.read(ADDR_START + rom.len() as u16), 0);
    // The font table is untouched.
    assert_eq!(vm.read(0), 0xF0);
}

#[test]
fn load_rom_largest_image() {
    let mut vm = VirtualMachine::new();
    let rom: Vec<u8> = vec![0x7Fu8; RAM_SIZE - ADDR_START as usize];
    vm.load_rom(&rom);
    assert_eq!(vm.read(ADDR_START), 0x7F);
    assert_eq!(vm.read((RAM_SIZE - 1) as u16), 0x7F);
}

#[test]
fn reset_restores_initial_state() {
    let mut vm = VirtualMachine::new();
    vm.load_rom(&[0x60, 0x2A, 0x00, 0xE0]);
    vm.execute();
    vm.set_key(3, true);
    vm.set_index_register(0x123);
    vm.reset();

    let fresh = VirtualMachine::new();
    assert_eq!(vm.get_program_counter(), fresh.get_program_counter());
    assert_eq!(vm.get_index_register(), 0);
    assert_eq!(vm.get_stack_pointer(), 0);
    for r in 0..16 {
        assert_eq!(vm.get_register(r), 0);
    }
    for a in 0..RAM_SIZE as u16 {
        assert_eq!(vm.read(a), fresh.read(a));
    }
    assert!(vm.get_display().iter().all(|p| !p));
}

#[test]
fn font_table_after_construction_and_reset() {
    let fresh = VirtualMachine::new();
    let mut vm = VirtualMachine::new();
    vm.load_rom(&[0xAA; 16]);
    vm.write(0, 0x00);
    vm.reset();
    for a in 0..FONT_BYTES as u16 {
        assert_eq!(vm.read(a), fresh.read(a));
    }
}

#[test]
fn write_and_read_mask_addresses() {
    let mut vm = VirtualMachine::new();
    vm.write(0x300, 0x55);
    assert_eq!(vm.read(0x300), 0x55);
    // Addresses are taken modulo the memory size.
    assert_eq!(vm.read(0x300 + RAM_SIZE as u16), 0x55);
    vm.write(0x1000, 0x66);
    assert_eq!(vm.read(0), 0x66);
}

#[test]
fn fetch_assembles_big_endian_and_advances() {
    let mut vm = VirtualMachine::new();
    vm.load_rom(&[0x12, 0x34]);
    let w = vm.fetch();
    assert_eq!(w, 0x1234);
    assert_eq!(vm.get_program_counter(), ADDR_START + 2);
}

#[test]
fn jump_sets_pc() {
    let mut vm = VirtualMachine::new();
    vm.load_rom(&[0x12, 0x00]);
    vm.execute();
    assert_eq!(vm.get_program_counter(), 0x200);
}

#[test]
fn plain_instruction_advances_pc_by_two() {
    let mut vm = VirtualMachine::new();
    vm.load_rom(&[0x60, 0x07]);
    vm.execute();
    assert_eq!(vm.get_program_counter(), 0x202);
    assert_eq!(vm.get_register(0), 7);
}

#[test]
fn skip_taken_advances_pc_by_four() {
    let mut vm = VirtualMachine::new();
    vm.load_rom(&[0x30, 0x05]);
    vm.set_register(0, 5);
    vm.execute();
    assert_eq!(vm.get_program_counter(), 0x204);
}

#[test]
fn skip_not_taken_advances_pc_by_two() {
    let mut vm = VirtualMachine::new();
    vm.load_rom(&[0x30, 0x05]);
    vm.set_register(0, 6);
    vm.execute();
    assert_eq!(vm.get_program_counter(), 0x202);
}

#[test]
fn register_skips() {
    let mut vm = VirtualMachine::new();
    vm.set_register(0, 9);
    vm.set_register(1, 9);
    vm.inst_5XY0(0, 1);
    assert_eq!(vm.get_program_counter(), ADDR_START + 2);
    vm.inst_9XY0(0, 1);
    assert_eq!(vm.get_program_counter(), ADDR_START + 2);
    vm.set_register(1, 8);
    vm.inst_9XY0(0, 1);
    assert_eq!(vm.get_program_counter(), ADDR_START + 4);
}

#[test]
fn call_and_return() {
    let mut vm = VirtualMachine::new();
    // 0x200: call 0x204; 0x204: return.
    vm.load_rom(&[0x22, 0x04, 0x00, 0x00, 0x00, 0xEE]);
    vm.execute();
    assert_eq!(vm.get_program_counter(), 0x204);
    assert_eq!(vm.get_stack_pointer(), 1);
    vm.execute();
    assert_eq!(vm.get_program_counter(), 0x202);
    assert_eq!(vm.get_stack_pointer(), 0);
}

#[test]
fn stack_overflow_is_rejected() {
    let mut vm = VirtualMachine::new();
    // A call that targets itself deepens the stack each cycle.
    vm.load_rom(&[0x22, 0x00]);
    for _ in 0..STACK_DEPTH {
        vm.execute();
    }
    assert_eq!(vm.get_stack_pointer(), STACK_DEPTH as u8);
    assert_eq!(vm.get_program_counter(), 0x200);
    // The thirteenth call is rejected: no push, no jump.
    vm.execute();
    assert_eq!(vm.get_stack_pointer(), STACK_DEPTH as u8);
    assert_eq!(vm.get_program_counter(), 0x202);
}

#[test]
fn return_with_empty_stack_is_rejected() {
    let mut vm = VirtualMachine::new();
    vm.load_rom(&[0x00, 0xEE]);
    vm.execute();
    assert_eq!(vm.get_stack_pointer(), 0);
    assert_eq!(vm.get_program_counter(), 0x202);
}

#[test]
fn jump_with_offset() {
    let mut vm = VirtualMachine::new();
    vm.load_rom(&[0xB2, 0x10]);
    vm.set_register(0, 0x25);
    vm.execute();
    assert_eq!(vm.get_program_counter(), 0x235);
}

#[test]
fn unknown_opcode_is_a_no_op() {
    let mut vm = VirtualMachine::new();
    // 0x5XY1 matches no instruction form.
    vm.load_rom(&[0x50, 0x11, 0x8A, 0xBF, 0xE0, 0x00, 0xF0, 0x99]);
    for step in 1..=4u16 {
        vm.execute();
        assert_eq!(vm.get_program_counter(), ADDR_START + 2 * step);
    }
    assert_eq!(vm.get_register(0), 0);
}

#[test]
fn timers_set_and_read() {
    let mut vm = VirtualMachine::new();
    vm.set_register(3, 42);
    vm.inst_FX15(3);
    assert_eq!(vm.get_delay_timer(), 42);
    vm.inst_FX18(3);
    assert_eq!(vm.get_sound_timer(), 42);
    vm.inst_FX07(4);
    assert_eq!(vm.get_register(4), 42);
    vm.tick_timers();
    assert_eq!(vm.get_delay_timer(), 41);
    assert_eq!(vm.get_sound_timer(), 41);
}

#[test]
fn index_register_ops() {
    let mut vm = VirtualMachine::new();
    vm.inst_ANNN(0x123);
    assert_eq!(vm.get_index_register(), 0x123);
    vm.set_register(0, 0x10);
    vm.inst_FX1E(0);
    assert_eq!(vm.get_index_register(), 0x133);
}

#[test]
fn index_accumulates_over_16_bits() {
    let mut vm = VirtualMachine::new();
    vm.set_index_register(0xFFFF);
    vm.set_register(0, 2);
    vm.inst_FX1E(0);
    assert_eq!(vm.get_index_register(), 1);
}

#[test]
fn font_index_uses_low_nibble() {
    let mut vm = VirtualMachine::new();
    vm.set_register(0, 0x0A);
    vm.inst_FX29(0);
    assert_eq!(vm.get_index_register(), 50);
    // Only the low nibble selects the glyph.
    vm.set_register(0, 0xFA);
    vm.inst_FX29(0);
    assert_eq!(vm.get_index_register(), 50);
}

#[test]
fn bcd_extraction() {
    let mut vm = VirtualMachine::new();
    vm.set_register(0, 234);
    vm.set_index_register(0x300);
    vm.inst_FX33(0);
    assert_eq!(vm.read(0x300), 2);
    assert_eq!(vm.read(0x301), 3);
    assert_eq!(vm.read(0x302), 4);

    vm.set_register(0, 7);
    vm.set_index_register(0x310);
    vm.inst_FX33(0);
    assert_eq!(vm.read(0x310), 0);
    assert_eq!(vm.read(0x311), 0);
    assert_eq!(vm.read(0x312), 7);
}

#[test]
fn register_dump_and_load_round_trip() {
    let mut vm = VirtualMachine::new();
    for r in 0..4 {
        vm.set_register(r, 10 + r);
    }
    vm.set_index_register(0x400);
    vm.inst_FX55(3);
    assert_eq!(vm.read(0x400), 10);
    assert_eq!(vm.read(0x401), 11);
    assert_eq!(vm.read(0x402), 12);
    assert_eq!(vm.read(0x403), 13);
    // The index register ends just past the stored block.
    assert_eq!(vm.get_index_register(), 0x404);

    for r in 0..4 {
        vm.set_register(r, 0);
    }
    vm.set_index_register(0x400);
    vm.inst_FX65(3);
    for r in 0..4 {
        assert_eq!(vm.get_register(r), 10 + r);
    }
    assert_eq!(vm.get_index_register(), 0x404);
}

#[test]
fn operate_runs_one_cycle() {
    let mut vm = VirtualMachine::new();
    vm.load_rom(&[0x6A, 0x2F]);
    vm.operate();
    assert_eq!(vm.get_register(0xA), 0x2F);
    assert_eq!(vm.get_program_counter(), 0x202);
}
