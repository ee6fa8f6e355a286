use chip8_core::{Emu, SCREEN_HEIGHT, SCREEN_WIDTH};

fn set(emu: &mut Emu, x: u16, value: u8) {
    emu.execute(0x6000 | (x << 8) | value as u16, 0);
}

fn machine_with(values: &[(u16, u8)]) -> Emu {
    let mut emu = Emu::new();
    for &(x, value) in values {
        set(&mut emu, x, value);
    }
    emu
}

#[test]
fn nop_changes_nothing() {
    let mut emu = machine_with(&[(3, 7)]);
    emu.execute(0x0000, 0);
    assert_eq!(emu.pc(), 0x200);
    assert_eq!(emu.registers()[3], 7);
    assert_eq!(emu.index_register(), 0);
    assert!(emu.call_stack().is_empty());
}

#[test]
fn jump_sets_pc() {
    let mut emu = Emu::new();
    emu.execute(0x1ABC, 0);
    assert_eq!(emu.pc(), 0xABC);
    emu.execute(0x1000, 0);
    assert_eq!(emu.pc(), 0x000);
    emu.execute(0x1FFF, 0);
    assert_eq!(emu.pc(), 0xFFF);
}

#[test]
fn jump_in_a_loaded_program() {
    let mut emu = Emu::new();
    emu.load(&[0x13, 0x45]);
    emu.tick();
    assert_eq!(emu.pc(), 0x345);
}

#[test]
fn jump_does_not_depend_on_prior_state() {
    let mut emu = machine_with(&[(0, 0xFF), (5, 0x12)]);
    emu.execute(0xA123, 0);
    emu.execute(0x2400, 0);
    emu.execute(0x1678, 0);
    assert_eq!(emu.pc(), 0x678);
    assert_eq!(emu.call_stack(), &[0x200u16][..]);
}

#[test]
fn call_pushes_and_return_pops() {
    let mut emu = Emu::new();
    emu.execute(0x1300, 0);
    emu.execute(0x2456, 0);
    assert_eq!(emu.pc(), 0x456);
    assert_eq!(emu.call_stack(), &[0x300u16][..]);
    emu.execute(0x00EE, 0);
    assert_eq!(emu.pc(), 0x300);
    assert!(emu.call_stack().is_empty());
}

#[test]
fn call_then_return_by_ticks() {
    // 0x200: call 0x206; 0x202: jump 0x202; 0x206: return
    let mut emu = Emu::new();
    emu.load(&[0x22, 0x06, 0x12, 0x02, 0x00, 0x00, 0x00, 0xEE]);
    emu.tick();
    assert_eq!(emu.pc(), 0x206);
    assert_eq!(emu.call_stack(), &[0x202u16][..]);
    emu.tick();
    assert_eq!(emu.pc(), 0x202);
    assert!(emu.call_stack().is_empty());
}

#[test]
fn nested_calls_return_in_reverse_order() {
    let mut emu = Emu::new();
    emu.execute(0x2300, 0);
    emu.execute(0x2400, 0);
    emu.execute(0x2500, 0);
    assert_eq!(emu.call_stack(), &[0x200u16, 0x300, 0x400][..]);
    emu.execute(0x00EE, 0);
    assert_eq!(emu.pc(), 0x400);
    emu.execute(0x00EE, 0);
    assert_eq!(emu.pc(), 0x300);
    emu.execute(0x00EE, 0);
    assert_eq!(emu.pc(), 0x200);
}

#[test]
fn sixteen_calls_fit_on_the_stack() {
    let mut emu = Emu::new();
    for depth in 0..16u16 {
        assert_eq!(emu.execute_fault(0x2300 + depth), None);
        emu.execute(0x2300 + depth, 0);
    }
    assert_eq!(emu.call_stack().len(), 16);
    assert_eq!(emu.call_stack()[0], 0x200);
    assert_eq!(emu.call_stack()[15], 0x30E);
    for depth in (0..16u16).rev() {
        emu.execute(0x00EE, 0);
        let expected = if depth == 0 { 0x200 } else { 0x300 + depth - 1 };
        assert_eq!(emu.pc(), expected);
    }
}

#[test]
fn skip_if_equal_to_constant() {
    let mut emu = machine_with(&[(4, 0x2A)]);
    emu.execute(0x342A, 0);
    assert_eq!(emu.pc(), 0x202);
    emu.execute(0x342B, 0);
    assert_eq!(emu.pc(), 0x202);
}

#[test]
fn skip_if_not_equal_to_constant() {
    let mut emu = machine_with(&[(4, 0x2A)]);
    emu.execute(0x442A, 0);
    assert_eq!(emu.pc(), 0x200);
    emu.execute(0x442B, 0);
    assert_eq!(emu.pc(), 0x202);
}

#[test]
fn skip_if_registers_equal() {
    let mut emu = machine_with(&[(1, 9), (2, 9), (3, 8)]);
    emu.execute(0x5120, 0);
    assert_eq!(emu.pc(), 0x202);
    emu.execute(0x5130, 0);
    assert_eq!(emu.pc(), 0x202);
}

#[test]
fn skip_if_registers_differ() {
    let mut emu = machine_with(&[(1, 9), (2, 9), (3, 8)]);
    emu.execute(0x9120, 0);
    assert_eq!(emu.pc(), 0x200);
    emu.execute(0x9130, 0);
    assert_eq!(emu.pc(), 0x202);
}

#[test]
fn skip_wraps_the_program_counter() {
    let mut emu = Emu::new();
    set(&mut emu, 0, 0xFF);
    // Bnnn can put the program counter at most at 0xFFF + 0xFF.
    emu.execute(0xBFFF, 0);
    assert_eq!(emu.pc(), 0x10FE);
    emu.execute(0x30FF, 0);
    assert_eq!(emu.pc(), 0x1100);
    let mut expected: u16 = 0x1100;
    while expected != 0xFFFE {
        emu.execute(0x30FF, 0);
        expected += 2;
        assert_eq!(emu.pc(), expected);
    }
    emu.execute(0x30FF, 0);
    assert_eq!(emu.pc(), 0x0000);
    emu.execute(0x30FF, 0);
    assert_eq!(emu.pc(), 0x0002);
}

#[test]
fn wait_for_key_wraps_the_program_counter() {
    let mut emu = Emu::new();
    emu.execute(0x1000, 0);
    emu.execute(0xF00A, 0);
    assert_eq!(emu.pc(), 0xFFFE);
    emu.execute(0x1001, 0);
    emu.execute(0xF00A, 0);
    assert_eq!(emu.pc(), 0xFFFF);
}

#[test]
fn set_register() {
    let mut emu = Emu::new();
    emu.execute(0x6A7F, 0);
    emu.execute(0x6F01, 0);
    assert_eq!(emu.registers()[0xA], 0x7F);
    assert_eq!(emu.registers()[0xF], 0x01);
    assert_eq!(emu.registers()[0], 0);
    assert_eq!(emu.pc(), 0x200);
}

#[test]
fn add_constant_wraps_without_flag() {
    let mut emu = machine_with(&[(2, 0xF0), (0xF, 0)]);
    emu.execute(0x7220, 0);
    assert_eq!(emu.registers()[2], 0x10);
    assert_eq!(emu.registers()[0xF], 0);
    emu.execute(0x7205, 0);
    assert_eq!(emu.registers()[2], 0x15);
}

#[test]
fn copy_register() {
    let mut emu = machine_with(&[(1, 3), (2, 200)]);
    emu.execute(0x8120, 0);
    assert_eq!(emu.registers()[1], 200);
    assert_eq!(emu.registers()[2], 200);
}

#[test]
fn bitwise_or() {
    let mut emu = machine_with(&[(1, 0b1100_1010), (2, 0b0101_0011)]);
    emu.execute(0x8121, 0);
    assert_eq!(emu.registers()[1], 0b1101_1011);
    assert_eq!(emu.registers()[2], 0b0101_0011);
}

#[test]
fn bitwise_and() {
    let mut emu = machine_with(&[(1, 0b1100_1010), (2, 0b0101_0011)]);
    emu.execute(0x8122, 0);
    assert_eq!(emu.registers()[1], 0b0100_0010);
}

#[test]
fn bitwise_xor() {
    let mut emu = machine_with(&[(1, 0b1100_1010), (2, 0b0101_0011)]);
    emu.execute(0x8123, 0);
    assert_eq!(emu.registers()[1], 0b1001_1001);
}

#[test]
fn add_without_carry() {
    let mut emu = machine_with(&[(1, 10), (2, 20), (0xF, 9)]);
    emu.execute(0x8124, 0);
    assert_eq!(emu.registers()[1], 30);
    assert_eq!(emu.registers()[0xF], 0);
}

#[test]
fn add_with_carry() {
    let mut emu = machine_with(&[(1, 200), (2, 100)]);
    emu.execute(0x8124, 0);
    assert_eq!(emu.registers()[1], 44);
    assert_eq!(emu.registers()[0xF], 1);
}

#[test]
fn add_carry_boundary() {
    let mut emu = machine_with(&[(1, 255), (2, 0)]);
    emu.execute(0x8124, 0);
    assert_eq!(emu.registers()[1], 255);
    assert_eq!(emu.registers()[0xF], 0);
    set(&mut emu, 2, 1);
    emu.execute(0x8124, 0);
    assert_eq!(emu.registers()[1], 0);
    assert_eq!(emu.registers()[0xF], 1);
}

#[test]
fn add_for_every_pair_of_values() {
    for a in 0..=255u16 {
        for b in 0..=255u16 {
            let mut emu = machine_with(&[(3, a as u8), (4, b as u8)]);
            emu.execute(0x8344, 0);
            assert_eq!(emu.registers()[3] as u16, (a + b) % 256);
            assert_eq!(emu.registers()[0xF] == 1, a + b > 255);
            assert!(emu.registers()[0xF] <= 1);
        }
    }
}

#[test]
fn add_into_flag_register_keeps_the_flag() {
    let mut emu = machine_with(&[(0xF, 200), (2, 100)]);
    emu.execute(0x8F24, 0);
    assert_eq!(emu.registers()[0xF], 1);
    let mut emu = machine_with(&[(0xF, 20), (2, 10)]);
    emu.execute(0x8F24, 0);
    assert_eq!(emu.registers()[0xF], 0);
}

#[test]
fn add_register_to_itself() {
    let mut emu = machine_with(&[(6, 0x81)]);
    emu.execute(0x8664, 0);
    assert_eq!(emu.registers()[6], 0x02);
    assert_eq!(emu.registers()[0xF], 1);
}

#[test]
fn subtract_without_borrow() {
    let mut emu = machine_with(&[(1, 5), (2, 3)]);
    emu.execute(0x8125, 0);
    assert_eq!(emu.registers()[1], 2);
    assert_eq!(emu.registers()[0xF], 1);
}

#[test]
fn subtract_with_borrow() {
    let mut emu = machine_with(&[(1, 3), (2, 5)]);
    emu.execute(0x8125, 0);
    assert_eq!(emu.registers()[1], 254);
    assert_eq!(emu.registers()[0xF], 0);
}

#[test]
fn subtract_equal_values() {
    let mut emu = machine_with(&[(1, 77), (2, 77)]);
    emu.execute(0x8125, 0);
    assert_eq!(emu.registers()[1], 0);
    assert_eq!(emu.registers()[0xF], 1);
}

#[test]
fn subtract_for_every_pair_of_values() {
    for a in 0..=255i32 {
        for b in 0..=255i32 {
            let mut emu = machine_with(&[(3, a as u8), (4, b as u8)]);
            emu.execute(0x8345, 0);
            assert_eq!(emu.registers()[3] as i32, (a - b).rem_euclid(256));
            assert_eq!(emu.registers()[0xF] == 1, a >= b);
            assert!(emu.registers()[0xF] <= 1);
        }
    }
}

#[test]
fn shift_right_keeps_the_dropped_bit() {
    let mut emu = machine_with(&[(1, 0b1010_0101)]);
    emu.execute(0x8106, 0);
    assert_eq!(emu.registers()[1], 0b0101_0010);
    assert_eq!(emu.registers()[0xF], 1);
    emu.execute(0x8106, 0);
    assert_eq!(emu.registers()[1], 0b0010_1001);
    assert_eq!(emu.registers()[0xF], 0);
}

#[test]
fn shift_right_ignores_y() {
    let mut emu = machine_with(&[(1, 6), (7, 0xFF)]);
    emu.execute(0x8176, 0);
    assert_eq!(emu.registers()[1], 3);
    assert_eq!(emu.registers()[7], 0xFF);
    assert_eq!(emu.registers()[0xF], 0);
}

#[test]
fn set_index() {
    let mut emu = Emu::new();
    emu.execute(0xAFED, 0);
    assert_eq!(emu.index_register(), 0xFED);
}

#[test]
fn jump_with_offset() {
    let mut emu = machine_with(&[(0, 0x10), (1, 0xFF)]);
    emu.execute(0xB300, 0);
    assert_eq!(emu.pc(), 0x310);
}

#[test]
fn random_is_masked() {
    let mut emu = Emu::new();
    emu.execute(0xC30F, 0xAB);
    assert_eq!(emu.registers()[3], 0x0B);
    emu.execute(0xC3F0, 0xAB);
    assert_eq!(emu.registers()[3], 0xA0);
    emu.execute(0xC3FF, 0x5C);
    assert_eq!(emu.registers()[3], 0x5C);
    emu.execute(0xC300, 0xFF);
    assert_eq!(emu.registers()[3], 0x00);
}

#[test]
fn random_byte_is_ignored_elsewhere() {
    let mut one = machine_with(&[(1, 200), (2, 100)]);
    let mut other = machine_with(&[(1, 200), (2, 100)]);
    one.execute(0x8124, 0x00);
    other.execute(0x8124, 0xFF);
    assert_eq!(one.registers(), other.registers());
    assert_eq!(one.pc(), other.pc());
}

#[test]
fn tick_on_random_respects_the_mask() {
    // 0x200: V1 := random & 0x0F; 0x202: jump 0x200
    let mut emu = Emu::new();
    emu.load(&[0xC1, 0x0F, 0x12, 0x00]);
    for _ in 0..200 {
        emu.tick();
        assert_eq!(emu.pc(), 0x202);
        assert_eq!(emu.registers()[1] & 0xF0, 0);
        emu.tick();
        assert_eq!(emu.pc(), 0x200);
    }
}

#[test]
fn tick_on_random_with_zero_mask() {
    let mut emu = Emu::new();
    emu.load(&[0x65, 0x77, 0xC5, 0x00]);
    emu.tick();
    assert_eq!(emu.registers()[5], 0x77);
    emu.tick();
    assert_eq!(emu.registers()[5], 0);
    assert_eq!(emu.pc(), 0x204);
}

#[test]
fn skip_if_key_pressed() {
    let mut emu = machine_with(&[(2, 0xB)]);
    emu.execute(0xE29E, 0);
    assert_eq!(emu.pc(), 0x200);
    emu.keypress(0xB, true);
    emu.execute(0xE29E, 0);
    assert_eq!(emu.pc(), 0x202);
    emu.keypress(0xB, false);
    emu.execute(0xE29E, 0);
    assert_eq!(emu.pc(), 0x202);
}

#[test]
fn skip_if_key_not_pressed() {
    let mut emu = machine_with(&[(2, 0xB)]);
    emu.execute(0xE2A1, 0);
    assert_eq!(emu.pc(), 0x202);
    emu.keypress(0xB, true);
    emu.execute(0xE2A1, 0);
    assert_eq!(emu.pc(), 0x202);
    emu.keypress(0xA, true);
    emu.keypress(0xB, false);
    emu.execute(0xE2A1, 0);
    assert_eq!(emu.pc(), 0x204);
}

#[test]
fn read_and_set_delay_timer() {
    let mut emu = machine_with(&[(1, 42)]);
    emu.execute(0xF115, 0);
    assert_eq!(emu.delay_timer(), 42);
    assert_eq!(emu.sound_timer(), 0);
    emu.tick_timers();
    emu.execute(0xF907, 0);
    assert_eq!(emu.registers()[9], 41);
}

#[test]
fn set_sound_timer() {
    let mut emu = machine_with(&[(1, 42)]);
    emu.execute(0xF118, 0);
    assert_eq!(emu.sound_timer(), 42);
    assert_eq!(emu.delay_timer(), 0);
}

#[test]
fn add_to_index() {
    let mut emu = machine_with(&[(1, 0x22)]);
    emu.execute(0xA100, 0);
    emu.execute(0xF11E, 0);
    assert_eq!(emu.index_register(), 0x122);
    assert_eq!(emu.registers()[0xF], 0);
}

#[test]
fn add_to_index_wraps_at_sixteen_bits() {
    // I can only pass 0xFFF by repeated additions.
    let mut emu = machine_with(&[(1, 0xFF)]);
    emu.execute(0xAFFF, 0);
    let mut expected: u16 = 0xFFF;
    for _ in 0..300 {
        emu.execute(0xF11E, 0);
        expected = expected.wrapping_add(0xFF);
        assert_eq!(emu.index_register(), expected);
    }
    assert_eq!(expected, 0x3AD3);
}

#[test]
fn font_address() {
    let mut emu = machine_with(&[(1, 0xA), (2, 0), (3, 0xFF)]);
    emu.execute(0xF129, 0);
    assert_eq!(emu.index_register(), 50);
    emu.execute(0xF229, 0);
    assert_eq!(emu.index_register(), 0);
    emu.execute(0xF329, 0);
    assert_eq!(emu.index_register(), 1275);
}

#[test]
fn font_address_points_at_the_glyph() {
    let mut emu = machine_with(&[(1, 0x7)]);
    emu.execute(0xF129, 0);
    let i = emu.index_register() as usize;
    assert_eq!(&emu.memory()[i..i + 5], &[0xF0, 0x10, 0x20, 0x40, 0x40][..]);
}

#[test]
fn bcd_of_157() {
    let mut emu = machine_with(&[(4, 157)]);
    emu.execute(0xA300, 0);
    emu.execute(0xF433, 0);
    assert_eq!(emu.memory()[0x300], 1);
    assert_eq!(emu.memory()[0x301], 5);
    assert_eq!(emu.memory()[0x302], 7);
    assert_eq!(emu.memory()[0x2FF], 0);
    assert_eq!(emu.memory()[0x303], 0);
    assert_eq!(emu.index_register(), 0x300);
}

#[test]
fn bcd_of_small_and_large_values() {
    let mut emu = machine_with(&[(0, 0), (1, 9), (2, 90), (3, 255), (4, 100)]);
    emu.execute(0xA300, 0);
    emu.execute(0xF033, 0);
    assert_eq!(&emu.memory()[0x300..0x303], &[0, 0, 0][..]);
    emu.execute(0xF133, 0);
    assert_eq!(&emu.memory()[0x300..0x303], &[0, 0, 9][..]);
    emu.execute(0xF233, 0);
    assert_eq!(&emu.memory()[0x300..0x303], &[0, 9, 0][..]);
    emu.execute(0xF333, 0);
    assert_eq!(&emu.memory()[0x300..0x303], &[2, 5, 5][..]);
    emu.execute(0xF433, 0);
    assert_eq!(&emu.memory()[0x300..0x303], &[1, 0, 0][..]);
}

#[test]
fn bcd_at_the_end_of_memory() {
    let mut emu = machine_with(&[(4, 123)]);
    emu.execute(0xAFFD, 0);
    assert_eq!(emu.execute_fault(0xF433), None);
    emu.execute(0xF433, 0);
    assert_eq!(&emu.memory()[0xFFD..0x1000], &[1, 2, 3][..]);
}

#[test]
fn store_registers() {
    let mut emu = machine_with(&[(0, 10), (1, 11), (2, 12), (3, 13)]);
    emu.execute(0xA400, 0);
    emu.execute(0xF255, 0);
    assert_eq!(&emu.memory()[0x400..0x404], &[10, 11, 12, 0][..]);
    assert_eq!(emu.memory()[0x3FF], 0);
    assert_eq!(emu.index_register(), 0x400);
}

#[test]
fn store_only_v0() {
    let mut emu = machine_with(&[(0, 10), (1, 11)]);
    emu.execute(0xA400, 0);
    emu.execute(0xF055, 0);
    assert_eq!(&emu.memory()[0x400..0x402], &[10, 0][..]);
}

#[test]
fn load_registers() {
    let mut emu = machine_with(&[(0, 1), (1, 2), (2, 3), (3, 4)]);
    // The glyph of 1 starts at address 5.
    emu.execute(0xA005, 0);
    emu.execute(0xF265, 0);
    assert_eq!(&emu.registers()[0..4], &[0x20, 0x60, 0x20, 4][..]);
    assert_eq!(emu.index_register(), 5);
}

#[test]
fn store_then_load_restores_registers() {
    for x in 0..16u16 {
        let mut emu = Emu::new();
        for r in 0..16u16 {
            set(&mut emu, r, (17 * r + 3) as u8);
        }
        emu.execute(0xA500, 0);
        emu.execute(0xF055 | (x << 8), 0);
        for r in 0..16u16 {
            set(&mut emu, r, 0xEE);
        }
        emu.execute(0xF065 | (x << 8), 0);
        for r in 0..16u16 {
            let expected = if r <= x { (17 * r + 3) as u8 } else { 0xEE };
            assert_eq!(emu.registers()[r as usize], expected);
        }
    }
}

#[test]
fn store_then_load_at_the_end_of_memory() {
    let mut emu = Emu::new();
    for r in 0..16u16 {
        set(&mut emu, r, 0xA0 + r as u8);
    }
    emu.execute(0xAFF0, 0);
    assert_eq!(emu.execute_fault(0xFF55), None);
    emu.execute(0xFF55, 0);
    assert_eq!(emu.memory()[0xFFF], 0xAF);
    let saved: Vec<u8> = emu.registers().to_vec();
    emu.execute(0xFF65, 0);
    assert_eq!(emu.registers(), &saved[..]);
}

#[test]
fn screen_has_the_stated_size() {
    assert_eq!(SCREEN_WIDTH, 64);
    assert_eq!(SCREEN_HEIGHT, 32);
    let emu = Emu::new();
    assert_eq!(emu.get_display().len(), SCREEN_WIDTH * SCREEN_HEIGHT);
}
