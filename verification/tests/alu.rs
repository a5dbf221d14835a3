//! Arithmetic and logic instructions, exercised on concrete values.

use emu_core::machine::VirtualMachine;

#[test]
fn inst_8xy4_test() {
    let mut vm = VirtualMachine::default();

    vm.set_register(0, 150);
    vm.set_register(1, 155);

    vm.inst_8XY4(0, 1);

    assert_eq!((vm.get_register(0), vm.get_register(0xF)), (49, 1));
}

#[test]
fn inst_8xy5_test() {
    let mut vm = VirtualMachine::default();

    vm.set_register(0, 10);
    vm.set_register(1, 15);

    vm.inst_8XY5(0, 1);

    // 10 - 15 wraps to 251; the borrow leaves the no-borrow flag at 0.
    assert_eq!((vm.get_register(0), vm.get_register(0xF)), (251, 0));
}

#[test]
fn inst_8xy6_test() {
    let mut vm = VirtualMachine::default();

    vm.set_register(1, 15);

    vm.inst_8XY6(0, 1);

    assert_eq!((vm.get_register(0), vm.get_register(0xF)), (7, 1));
}

#[test]
fn add_without_carry() {
    let mut vm = VirtualMachine::new();
    vm.set_register(2, 30);
    vm.set_register(3, 40);
    vm.inst_8XY4(2, 3);
    assert_eq!((vm.get_register(2), vm.get_register(0xF)), (70, 0));
}

#[test]
fn add_carry_boundary() {
    let mut vm = VirtualMachine::new();
    // 255 + 1 is the smallest overflowing sum: result 0, flag 1.
    vm.set_register(0, 255);
    vm.set_register(1, 1);
    vm.inst_8XY4(0, 1);
    assert_eq!((vm.get_register(0), vm.get_register(0xF)), (0, 1));

    // 255 + 0 stays in range: flag 0.
    vm.set_register(0, 255);
    vm.set_register(1, 0);
    vm.inst_8XY4(0, 1);
    assert_eq!((vm.get_register(0), vm.get_register(0xF)), (255, 0));
}

#[test]
fn sub_without_borrow() {
    let mut vm = VirtualMachine::new();
    vm.set_register(0, 15);
    vm.set_register(1, 10);
    vm.inst_8XY5(0, 1);
    assert_eq!((vm.get_register(0), vm.get_register(0xF)), (5, 1));
}

#[test]
fn sub_equal_values() {
    let mut vm = VirtualMachine::new();
    vm.set_register(0, 42);
    vm.set_register(1, 42);
    vm.inst_8XY5(0, 1);
    // X >= Y holds, so the no-borrow flag is 1.
    assert_eq!((vm.get_register(0), vm.get_register(0xF)), (0, 1));
}

#[test]
fn reverse_sub_both_directions() {
    let mut vm = VirtualMachine::new();
    vm.set_register(0, 10);
    vm.set_register(1, 15);
    vm.inst_8XY7(0, 1);
    // X gets Y - X = 5 with no borrow.
    assert_eq!((vm.get_register(0), vm.get_register(0xF)), (5, 1));

    vm.set_register(0, 20);
    vm.set_register(1, 15);
    vm.inst_8XY7(0, 1);
    // 15 - 20 wraps to 251 with a borrow.
    assert_eq!((vm.get_register(0), vm.get_register(0xF)), (251, 0));
}

#[test]
fn shift_right_even_source() {
    let mut vm = VirtualMachine::new();
    vm.set_register(1, 0x50);
    vm.inst_8XY6(0, 1);
    assert_eq!((vm.get_register(0), vm.get_register(0xF)), (0x28, 0));
}

#[test]
fn shift_left_captures_high_bit() {
    let mut vm = VirtualMachine::new();
    vm.set_register(1, 0x81);
    vm.inst_8XYE(0, 1);
    // 0x81 << 1 is 0x102, truncated to 0x02; the high bit sets the flag.
    assert_eq!((vm.get_register(0), vm.get_register(0xF)), (0x02, 1));

    vm.set_register(1, 0x03);
    vm.inst_8XYE(0, 1);
    assert_eq!((vm.get_register(0), vm.get_register(0xF)), (0x06, 0));
}

#[test]
fn bitwise_ops() {
    let mut vm = VirtualMachine::new();
    vm.set_register(0, 0b1100);
    vm.set_register(1, 0b1010);
    vm.inst_8XY1(0, 1);
    assert_eq!(vm.get_register(0), 0b1110);

    vm.set_register(0, 0b1100);
    vm.inst_8XY2(0, 1);
    assert_eq!(vm.get_register(0), 0b1000);

    vm.set_register(0, 0b1100);
    vm.inst_8XY3(0, 1);
    assert_eq!(vm.get_register(0), 0b0110);
}

#[test]
fn assign_and_load_immediate() {
    let mut vm = VirtualMachine::new();
    vm.inst_6XNN(4, 0xAB);
    assert_eq!(vm.get_register(4), 0xAB);
    vm.inst_8XY0(5, 4);
    assert_eq!(vm.get_register(5), 0xAB);
}

#[test]
fn add_immediate_wraps_without_flag() {
    let mut vm = VirtualMachine::new();
    vm.set_register(0xF, 1);
    vm.set_register(0, 250);
    vm.inst_7XNN(0, 10);
    // 250 + 10 wraps to 4; the flag register is untouched.
    assert_eq!(vm.get_register(0), 4);
    assert_eq!(vm.get_register(0xF), 1);
}

#[test]
fn random_masking() {
    let mut vm = VirtualMachine::new();
    vm.store_random(0, 0x0F, 0xAB);
    assert_eq!(vm.get_register(0), 0x0B);

    // A zero mask pins the result whatever byte was drawn.
    let drawn = vm.inst_CXNN(1, 0x00);
    assert_eq!(vm.get_register(1), 0);

    let drawn2 = vm.inst_CXNN(2, 0xFF);
    assert_eq!(vm.get_register(2), drawn2);
    let _ = drawn;
}
