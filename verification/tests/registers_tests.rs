use chip8_core::chip8::registers::Registers;

#[test]
fn test_cmp_scalar() {
    let mut registers = Registers::new();
    registers.load_scalar(Registers::V0, 0x23);
    assert_eq!(registers[Registers::V0], 0x23);
}

#[test]
fn test_or_register() {
    let mut registers = Registers::new();
    registers.load_scalar(Registers::V0, 0xAF);
    registers.load_scalar(Registers::V1, 0xF0);
    registers.or_register(Registers::V0, Registers::V1);
    assert_eq!(registers[Registers::V0], 0xFF);
    assert_eq!(registers[Registers::V1], 0xF0);
}

#[test]
fn test_and_register() {
    let mut registers = Registers::new();
    registers.load_scalar(Registers::V0, 0x3);
    registers.load_scalar(Registers::V1, 0x2);
    registers.and_register(Registers::V0, Registers::V1);
    assert_eq!(registers[Registers::V0], 0x2);
    assert_eq!(registers[Registers::V1], 0x2);
}

#[test]
fn test_xor_register() {
    let mut registers = Registers::new();
    registers.load_scalar(Registers::V0, 0xF0);
    registers.load_scalar(Registers::V1, 0x0F);
    registers.xor_register(Registers::V0, Registers::V1);
    assert_eq!(registers[Registers::V0], 0xFF);
    assert_eq!(registers[Registers::V1], 0x0F);
}

fn with(a: u8, b: u8) -> Registers {
    let mut registers = Registers::new();
    registers.load_scalar(Registers::V3, a);
    registers.load_scalar(Registers::V9, b);
    registers
}

#[test]
fn registers_start_zeroed() {
    let registers = Registers::new();
    assert_eq!(registers.get_slice(Registers::V0, Registers::ST), &[0u8; 18]);
}

#[test]
fn compare_tells_equal_from_unequal() {
    let registers = with(7, 7);
    assert!(registers.cmp_scalar(Registers::V3, 7));
    assert!(!registers.cmp_scalar(Registers::V3, 8));
    assert!(registers.cmp_register(Registers::V3, Registers::V9));
    assert!(!registers.cmp_register(Registers::V3, Registers::V0));
}

#[test]
fn load_register_copies_and_keeps_the_source() {
    let mut registers = with(0x11, 0x22);
    registers.load_register(Registers::V3, Registers::V9);
    assert_eq!(registers[Registers::V3], 0x22);
    assert_eq!(registers[Registers::V9], 0x22);
    registers.load_register(Registers::DT, Registers::V3);
    assert_eq!(registers[Registers::DT], 0x22);
    assert_eq!(registers[Registers::ST], 0);
}

#[test]
fn add_scalar_wraps_and_sets_no_flag() {
    let mut registers = with(250, 0);
    registers.add_scalar(Registers::V3, 10);
    assert_eq!(registers[Registers::V3], 4);
    assert_eq!(registers[Registers::VF], 0);
}

#[test]
fn add_register_for_every_pair_of_values() {
    for a in 0..=255u8 {
        for b in 0..=255u8 {
            let mut registers = with(a, b);
            registers.add_register(Registers::V3, Registers::V9);
            let sum = a as u16 + b as u16;
            assert_eq!(registers[Registers::V3], (sum % 256) as u8);
            assert_eq!(registers[Registers::VF], if sum >= 256 { 1 } else { 0 });
            assert_eq!(registers[Registers::V9], b);
        }
    }
}

#[test]
fn add_register_exact_values() {
    let mut registers = with(200, 100);
    registers.add_register(Registers::V3, Registers::V9);
    assert_eq!(registers[Registers::V3], 44);
    assert_eq!(registers[Registers::VF], 1);
    let mut registers = with(200, 55);
    registers.add_register(Registers::V3, Registers::V9);
    assert_eq!(registers[Registers::V3], 255);
    assert_eq!(registers[Registers::VF], 0);
}

#[test]
fn add_register_into_the_flag_register_keeps_the_sum() {
    let mut registers = Registers::new();
    registers.load_scalar(Registers::VF, 200);
    registers.load_scalar(Registers::V1, 100);
    registers.add_register(Registers::VF, Registers::V1);
    assert_eq!(registers[Registers::VF], 44);
}

#[test]
fn sub_register_for_every_pair_of_values() {
    for a in 0..=255u8 {
        for b in 0..=255u8 {
            let mut registers = with(a, b);
            registers.sub_register(Registers::V3, Registers::V9);
            assert_eq!(registers[Registers::V3], a.wrapping_sub(b));
            assert_eq!(registers[Registers::VF], if a > b { 1 } else { 0 });
            assert_eq!(registers[Registers::V9], b);
        }
    }
}

#[test]
fn sub_register_exact_values() {
    let mut registers = with(5, 7);
    registers.sub_register(Registers::V3, Registers::V9);
    assert_eq!(registers[Registers::V3], 254);
    assert_eq!(registers[Registers::VF], 0);
    let mut registers = with(7, 7);
    registers.sub_register(Registers::V3, Registers::V9);
    assert_eq!(registers[Registers::V3], 0);
    assert_eq!(registers[Registers::VF], 0);
    let mut registers = with(9, 7);
    registers.sub_register(Registers::V3, Registers::V9);
    assert_eq!(registers[Registers::V3], 2);
    assert_eq!(registers[Registers::VF], 1);
}

#[test]
fn sub_register_reads_the_flag_register_after_it_is_written() {
    let mut registers = Registers::new();
    registers.load_scalar(Registers::V1, 10);
    registers.load_scalar(Registers::VF, 3);
    registers.sub_register(Registers::V1, Registers::VF);
    assert_eq!(registers[Registers::VF], 1);
    assert_eq!(registers[Registers::V1], 9);
}

#[test]
fn subn_register_for_every_pair_of_values() {
    for a in 0..=255u8 {
        for b in 0..=255u8 {
            let mut registers = with(a, b);
            registers.subn_register(Registers::V3, Registers::V9);
            assert_eq!(registers[Registers::V3], b.wrapping_sub(a));
            assert_eq!(registers[Registers::VF], if b > a { 1 } else { 0 });
            assert_eq!(registers[Registers::V9], b);
        }
    }
}

#[test]
fn shift_right_of_ten_then_five() {
    let mut registers = with(0b0000_1010, 0);
    registers.shift_right(Registers::V3);
    assert_eq!(registers[Registers::V3], 5);
    assert_eq!(registers[Registers::VF], 0);
    registers.shift_right(Registers::V3);
    assert_eq!(registers[Registers::V3], 2);
    assert_eq!(registers[Registers::VF], 1);
}

#[test]
fn shifts_for_every_value() {
    for a in 0..=255u8 {
        let mut registers = with(a, 0);
        registers.shift_right(Registers::V3);
        assert_eq!(registers[Registers::V3], a / 2);
        assert_eq!(registers[Registers::VF], a % 2);
        let mut registers = with(a, 0);
        registers.shift_left(Registers::V3);
        assert_eq!(registers[Registers::V3], ((a as u16 * 2) % 256) as u8);
        assert_eq!(registers[Registers::VF], a / 128);
    }
}

#[test]
fn shift_left_exact_values() {
    let mut registers = with(0x81, 0);
    registers.shift_left(Registers::V3);
    assert_eq!(registers[Registers::V3], 0x02);
    assert_eq!(registers[Registers::VF], 1);
    registers.shift_left(Registers::V3);
    assert_eq!(registers[Registers::V3], 0x04);
    assert_eq!(registers[Registers::VF], 0);
}

#[test]
fn shift_of_the_flag_register_leaves_zero() {
    let mut registers = Registers::new();
    registers.load_scalar(Registers::VF, 0xFF);
    registers.shift_right(Registers::VF);
    assert_eq!(registers[Registers::VF], 0);
    registers.load_scalar(Registers::VF, 0xFF);
    registers.shift_left(Registers::VF);
    assert_eq!(registers[Registers::VF], 2);
}

#[test]
fn slices_cover_an_inclusive_range() {
    let mut registers = Registers::new();
    for r in 0..18u8 {
        registers.load_scalar(r, r + 100);
    }
    assert_eq!(registers.get_slice(Registers::V2, Registers::V4), &[102, 103, 104]);
    assert_eq!(registers.get_slice(Registers::V5, Registers::V5), &[105]);
    assert_eq!(registers.get_slice(Registers::V5, Registers::V4), &[] as &[u8]);
    assert_eq!(registers.get_slice(Registers::V0, Registers::ST).len(), 18);
    let cells = registers.get_slice_mut(Registers::V1, Registers::V2);
    assert_eq!(cells, &[101, 102]);
    cells[0] = 7;
    cells[1] = 8;
    assert_eq!(registers.get_slice(Registers::V0, Registers::V3), &[100, 7, 8, 103]);
}
