use chip8_core::chip8::instruction::Instruction;
use chip8_core::chip8::machine::StepError;
use chip8_core::chip8::memory::MemoryAddress;
use chip8_core::chip8::registers::Registers;
use chip8_core::chip8::Chip8;

fn loaded(program: &[u8]) -> Chip8 {
    let mut chip8 = Chip8::new();
    chip8.load_program(program);
    chip8
}

#[test]
fn new_machine_starts_at_the_program_start() {
    let chip8 = Chip8::new();
    assert_eq!(chip8.pc, MemoryAddress(0x200));
    assert_eq!(chip8.i, MemoryAddress(0));
    assert_eq!(chip8.display, [0u8; 256]);
    assert_eq!(chip8.stack.pointer(), 0);
    assert_eq!(chip8.registers.get_slice(0, 17), &[0u8; 18]);
    assert_eq!(chip8.memory.read_bytes(MemoryAddress(80), 4016), &[0u8; 4016][..]);
}

#[test]
fn new_machine_holds_the_digit_glyphs() {
    let chip8 = Chip8::new();
    assert_eq!(chip8.memory.read_bytes(MemoryAddress(0), 5), &[0xF0, 0x90, 0x90, 0x90, 0xF0]);
    assert_eq!(chip8.memory.read_bytes(MemoryAddress(5), 5), &[0x20, 0x60, 0x20, 0x20, 0x70]);
    assert_eq!(chip8.memory.read_bytes(MemoryAddress(10), 5), &[0xF0, 0x10, 0xF0, 0x80, 0xF0]);
    assert_eq!(chip8.memory.read_bytes(MemoryAddress(15), 5), &[0xF0, 0x10, 0xF0, 0x10, 0xF0]);
    assert_eq!(chip8.memory.read_bytes(MemoryAddress(20), 5), &[0x90, 0x90, 0xF0, 0x10, 0x10]);
    assert_eq!(chip8.memory.read_bytes(MemoryAddress(25), 5), &[0xF0, 0x80, 0xF0, 0x10, 0xF0]);
    assert_eq!(chip8.memory.read_bytes(MemoryAddress(30), 5), &[0xF0, 0x80, 0xF0, 0x90, 0xF0]);
    assert_eq!(chip8.memory.read_bytes(MemoryAddress(35), 5), &[0xF0, 0x10, 0x20, 0x40, 0x40]);
    assert_eq!(chip8.memory.read_bytes(MemoryAddress(40), 5), &[0xF0, 0x90, 0xF0, 0x90, 0xF0]);
    assert_eq!(chip8.memory.read_bytes(MemoryAddress(45), 5), &[0xF0, 0x90, 0xF0, 0x10, 0xF0]);
    assert_eq!(chip8.memory.read_bytes(MemoryAddress(50), 5), &[0xF0, 0x90, 0xF0, 0x90, 0x90]);
    assert_eq!(chip8.memory.read_bytes(MemoryAddress(55), 5), &[0xE0, 0x90, 0xE0, 0x90, 0xE0]);
    assert_eq!(chip8.memory.read_bytes(MemoryAddress(60), 5), &[0xF0, 0x80, 0x80, 0x80, 0xF0]);
    assert_eq!(chip8.memory.read_bytes(MemoryAddress(65), 5), &[0xE0, 0x90, 0x90, 0x90, 0xE0]);
    assert_eq!(chip8.memory.read_bytes(MemoryAddress(70), 5), &[0xF0, 0x80, 0xF0, 0x80, 0xF0]);
    assert_eq!(chip8.memory.read_bytes(MemoryAddress(75), 5), &[0xF0, 0x80, 0xF0, 0x80, 0x80]);
}

#[test]
fn load_program_copies_to_the_program_start() {
    let chip8 = loaded(&[0x12, 0x34, 0x56]);
    assert_eq!(chip8.memory.read_bytes(MemoryAddress(0x1FF), 5), &[0, 0x12, 0x34, 0x56, 0]);
    let full = vec![0xAAu8; 4096 - 0x200];
    let chip8 = loaded(&full);
    assert_eq!(chip8.memory.read_bytes(MemoryAddress(0xFFF), 1), &[0xAA]);
    assert_eq!(chip8.memory.read_bytes(MemoryAddress(0x1FF), 1), &[0]);
}

#[test]
fn jump_sets_the_program_counter_to_the_twelve_bit_address() {
    let mut chip8 = loaded(&[0x11, 0x23]);
    assert_eq!(chip8.step(), Ok(Instruction::Jump(0x123)));
    assert_eq!(chip8.pc, MemoryAddress(0x123));
}

#[test]
fn call_then_return_restores_program_counter_and_depth() {
    let mut chip8 = loaded(&[0x22, 0x04, 0x00, 0x00, 0x00, 0xEE]);
    let depth = chip8.stack.pointer();
    assert_eq!(chip8.step(), Ok(Instruction::Call(0x204)));
    assert_eq!(chip8.pc, MemoryAddress(0x204));
    assert_eq!(chip8.stack.pointer(), depth + 1);
    assert_eq!(chip8.stack.slot(0), MemoryAddress(0x200));
    assert_eq!(chip8.step(), Ok(Instruction::Return));
    assert_eq!(chip8.pc, MemoryAddress(0x200));
    assert_eq!(chip8.stack.pointer(), depth);
}

#[test]
fn call_then_return_at_every_depth() {
    for depth in 0..16usize {
        let mut chip8 = Chip8::new();
        for n in 0..depth {
            chip8.call(MemoryAddress(0x300 + n as u16));
        }
        let pc = chip8.pc;
        chip8.call(MemoryAddress(0x456));
        chip8.ret();
        assert_eq!(chip8.pc, pc);
        assert_eq!(chip8.stack.pointer(), depth);
    }
}

#[test]
fn return_on_an_empty_stack_takes_the_stale_slot() {
    let mut chip8 = loaded(&[0x00, 0xEE]);
    assert_eq!(chip8.step(), Ok(Instruction::Return));
    assert_eq!(chip8.pc, MemoryAddress(0));
    assert_eq!(chip8.stack.pointer(), 15);
}

#[test]
fn jump_with_offset_is_not_cut_to_twelve_bits() {
    let mut chip8 = loaded(&[0xBF, 0xFF]);
    chip8.registers.load_scalar(Registers::V0, 0xFF);
    assert_eq!(chip8.step(), Ok(Instruction::JumpOffset(0xFFF)));
    assert_eq!(chip8.pc, MemoryAddress(0x10FE));
    let mut chip8 = Chip8::new();
    chip8.registers.load_scalar(Registers::V0, 2);
    chip8.jump_reg0(MemoryAddress(0xFFFF));
    assert_eq!(chip8.pc, MemoryAddress(1));
}

#[test]
fn sys_does_nothing_and_moves_on() {
    let mut chip8 = loaded(&[0x01, 0x23]);
    assert_eq!(chip8.step(), Ok(Instruction::Sys(0x123)));
    assert_eq!(chip8.pc, MemoryAddress(0x202));
    assert_eq!(chip8.registers.get_slice(0, 17), &[0u8; 18]);
    assert_eq!(chip8.display, [0u8; 256]);
    assert_eq!(chip8.stack.pointer(), 0);
}

#[test]
fn clear_screen_zeroes_the_display() {
    let mut chip8 = loaded(&[0x00, 0xE0]);
    chip8.display = [0xFF; 256];
    assert_eq!(chip8.step(), Ok(Instruction::ClearScreen));
    assert_eq!(chip8.display, [0u8; 256]);
    assert_eq!(chip8.pc, MemoryAddress(0x202));
}

#[test]
fn skip_taken_moves_four_and_not_taken_two() {
    let mut chip8 = loaded(&[0x31, 0x07]);
    chip8.registers.load_scalar(Registers::V1, 7);
    assert_eq!(chip8.step(), Ok(Instruction::SkipEqual(1, 7)));
    assert_eq!(chip8.pc, MemoryAddress(0x204));
    let mut chip8 = loaded(&[0x31, 0x07]);
    assert_eq!(chip8.step(), Ok(Instruction::SkipEqual(1, 7)));
    assert_eq!(chip8.pc, MemoryAddress(0x202));

    let mut chip8 = loaded(&[0x41, 0x07]);
    assert_eq!(chip8.step(), Ok(Instruction::SkipNotEqual(1, 7)));
    assert_eq!(chip8.pc, MemoryAddress(0x204));
    let mut chip8 = loaded(&[0x41, 0x00]);
    assert_eq!(chip8.step(), Ok(Instruction::SkipNotEqual(1, 0)));
    assert_eq!(chip8.pc, MemoryAddress(0x202));

    let mut chip8 = loaded(&[0x51, 0x20]);
    assert_eq!(chip8.step(), Ok(Instruction::SkipEqualRegister(1, 2)));
    assert_eq!(chip8.pc, MemoryAddress(0x204));
    let mut chip8 = loaded(&[0x51, 0x20]);
    chip8.registers.load_scalar(Registers::V2, 1);
    assert_eq!(chip8.step(), Ok(Instruction::SkipEqualRegister(1, 2)));
    assert_eq!(chip8.pc, MemoryAddress(0x202));
    let mut chip8 = loaded(&[0x91, 0x20]);
    assert_eq!(chip8.step(), Ok(Instruction::SkipNotEqualRegister(1, 2)));
    assert_eq!(chip8.pc, MemoryAddress(0x202));
    let mut chip8 = loaded(&[0x91, 0x20]);
    chip8.registers.load_scalar(Registers::V2, 1);
    assert_eq!(chip8.step(), Ok(Instruction::SkipNotEqualRegister(1, 2)));
    assert_eq!(chip8.pc, MemoryAddress(0x204));
}

#[test]
fn skip_at_the_top_of_the_address_range_wraps() {
    let mut chip8 = Chip8::new();
    chip8.memory.write_bytes(MemoryAddress(0xFFE), &[0x30, 0x00]);
    chip8.jump(MemoryAddress(0xFFFE));
    assert_eq!(chip8.step(), Ok(Instruction::SkipEqual(0, 0)));
    assert_eq!(chip8.pc, MemoryAddress(0x0002));
    chip8.jump(MemoryAddress(0xFFFE));
    chip8.registers.load_scalar(Registers::V0, 1);
    assert_eq!(chip8.step(), Ok(Instruction::SkipEqual(0, 0)));
    assert_eq!(chip8.pc, MemoryAddress(0x0000));
}

#[test]
fn register_instructions_through_a_program() {
    let mut chip8 = loaded(&[
        0x61, 0xC8, // V1 = 200
        0x62, 0x64, // V2 = 100
        0x81, 0x24, // V1 += V2
        0x73, 0xFF, // V3 += 255
        0x73, 0x02, // V3 += 2
        0x84, 0x10, // V4 = V1
        0x84, 0x25, // V4 -= V2
        0x85, 0x27, // V5 = V2 - V5
        0x86, 0x11, // V6 |= V1
        0x86, 0x22, // V6 &= V2
        0x86, 0x13, // V6 ^= V1
        0x86, 0x06, // V6 >>= 1
        0x86, 0x0E, // V6 <<= 1
    ]);
    assert_eq!(chip8.step(), Ok(Instruction::LoadScalar(1, 200)));
    assert_eq!(chip8.step(), Ok(Instruction::LoadScalar(2, 100)));
    assert_eq!(chip8.step(), Ok(Instruction::Add(1, 2)));
    assert_eq!(chip8.registers[Registers::V1], 44);
    assert_eq!(chip8.registers[Registers::VF], 1);
    assert_eq!(chip8.step(), Ok(Instruction::AddScalar(3, 255)));
    assert_eq!(chip8.step(), Ok(Instruction::AddScalar(3, 2)));
    assert_eq!(chip8.registers[Registers::V3], 1);
    assert_eq!(chip8.registers[Registers::VF], 1);
    assert_eq!(chip8.step(), Ok(Instruction::LoadRegister(4, 1)));
    assert_eq!(chip8.step(), Ok(Instruction::Sub(4, 2)));
    assert_eq!(chip8.registers[Registers::V4], 200);
    assert_eq!(chip8.registers[Registers::VF], 0);
    assert_eq!(chip8.step(), Ok(Instruction::Subn(5, 2)));
    assert_eq!(chip8.registers[Registers::V5], 100);
    assert_eq!(chip8.registers[Registers::VF], 1);
    assert_eq!(chip8.step(), Ok(Instruction::Or(6, 1)));
    assert_eq!(chip8.registers[Registers::V6], 44);
    assert_eq!(chip8.step(), Ok(Instruction::And(6, 2)));
    assert_eq!(chip8.registers[Registers::V6], 44 & 100);
    assert_eq!(chip8.step(), Ok(Instruction::Xor(6, 1)));
    assert_eq!(chip8.registers[Registers::V6], (44 & 100) ^ 44);
    assert_eq!(chip8.registers[Registers::V6], 8);
    chip8.registers.load_scalar(Registers::V6, 0x81);
    assert_eq!(chip8.step(), Ok(Instruction::ShiftRight(6)));
    assert_eq!(chip8.registers[Registers::V6], 0x40);
    assert_eq!(chip8.registers[Registers::VF], 1);
    assert_eq!(chip8.step(), Ok(Instruction::ShiftLeft(6)));
    assert_eq!(chip8.registers[Registers::V6], 0x80);
    assert_eq!(chip8.registers[Registers::VF], 0);
    assert_eq!(chip8.pc, MemoryAddress(0x200 + 26));
}

#[test]
fn timers_are_registers_sixteen_and_seventeen() {
    let mut chip8 = loaded(&[0x61, 0x2A, 0xF1, 0x15, 0xF1, 0x18, 0xF3, 0x07]);
    assert_eq!(chip8.step(), Ok(Instruction::LoadScalar(1, 0x2A)));
    assert_eq!(chip8.step(), Ok(Instruction::SetDelay(1)));
    assert_eq!(chip8.registers[Registers::DT], 0x2A);
    assert_eq!(chip8.registers[Registers::ST], 0);
    assert_eq!(chip8.step(), Ok(Instruction::SetSound(1)));
    assert_eq!(chip8.registers[Registers::ST], 0x2A);
    assert_eq!(chip8.step(), Ok(Instruction::LoadDelay(3)));
    assert_eq!(chip8.registers[Registers::V3], 0x2A);
}

#[test]
fn index_instructions() {
    let mut chip8 = loaded(&[0xAF, 0xFE, 0x61, 0x05, 0xF1, 0x1E, 0xF1, 0x29]);
    assert_eq!(chip8.step(), Ok(Instruction::LoadIndex(0xFFE)));
    assert_eq!(chip8.i, MemoryAddress(0xFFE));
    assert_eq!(chip8.step(), Ok(Instruction::LoadScalar(1, 5)));
    assert_eq!(chip8.step(), Ok(Instruction::AddIndex(1)));
    assert_eq!(chip8.i, MemoryAddress(0x1003));
    assert_eq!(chip8.step(), Ok(Instruction::DigitSprite(1)));
    assert_eq!(chip8.i, MemoryAddress(25));
    chip8.registers.load_scalar(Registers::V1, 255);
    chip8.load_digit_sprite(Registers::V1);
    assert_eq!(chip8.i, MemoryAddress(1275));
    chip8.load_i(MemoryAddress(0xFFFF));
    chip8.add_i_reg(Registers::V1);
    assert_eq!(chip8.i, MemoryAddress(0x00FE));
}

#[test]
fn decimal_digits_are_written_at_the_index_register() {
    let mut chip8 = loaded(&[0xF0, 0x33]);
    chip8.registers.load_scalar(Registers::V0, 123);
    chip8.load_i(MemoryAddress(0x300));
    assert_eq!(chip8.step(), Ok(Instruction::Decimal(0)));
    assert_eq!(chip8.memory.read_bytes(MemoryAddress(0x2FF), 5), &[0, 1, 2, 3, 0]);
    for (value, digits) in [(0u8, [0u8, 0, 0]), (7, [0, 0, 7]), (40, [0, 4, 0]), (255, [2, 5, 5]), (109, [1, 0, 9])] {
        let mut chip8 = Chip8::new();
        chip8.registers.load_scalar(Registers::V8, value);
        chip8.load_i(MemoryAddress(0xFFD));
        chip8.load_binary_coded_decimal(Registers::V8);
        assert_eq!(chip8.memory.read_bytes(MemoryAddress(0xFFD), 3), &digits);
    }
}

#[test]
fn store_then_load_round_trips_the_registers() {
    let mut chip8 = loaded(&[0xF2, 0x55, 0x60, 0x00, 0x61, 0x00, 0x62, 0x00, 0xF2, 0x65]);
    chip8.registers.load_scalar(Registers::V0, 11);
    chip8.registers.load_scalar(Registers::V1, 22);
    chip8.registers.load_scalar(Registers::V2, 33);
    chip8.registers.load_scalar(Registers::V3, 44);
    chip8.load_i(MemoryAddress(0x400));
    assert_eq!(chip8.step(), Ok(Instruction::StoreRegisters(2)));
    assert_eq!(chip8.memory.read_bytes(MemoryAddress(0x400), 4), &[11, 22, 33, 0]);
    assert!(chip8.step().is_ok());
    assert!(chip8.step().is_ok());
    assert!(chip8.step().is_ok());
    assert_eq!(chip8.registers.get_slice(0, 3), &[0, 0, 0, 44]);
    assert_eq!(chip8.step(), Ok(Instruction::LoadRegisters(2)));
    assert_eq!(chip8.registers.get_slice(0, 3), &[11, 22, 33, 44]);
    assert_eq!(chip8.i, MemoryAddress(0x400));
}

#[test]
fn store_and_load_of_all_sixteen_registers() {
    let mut chip8 = Chip8::new();
    for r in 0..16u8 {
        chip8.registers.load_scalar(r, 0xA0 + r);
    }
    chip8.load_i(MemoryAddress(0xFF0));
    chip8.store_regs(Registers::VF);
    let stored: Vec<u8> = (0..16u8).map(|r| 0xA0 + r).collect();
    assert_eq!(chip8.memory.read_bytes(MemoryAddress(0xFF0), 16), &stored[..]);
    let mut other = Chip8::new();
    other.memory.write_bytes(MemoryAddress(0xFF0), &stored);
    other.load_i(MemoryAddress(0xFF0));
    other.load_regs(Registers::VF);
    assert_eq!(other.registers.get_slice(0, 15), &stored[..]);
    assert_eq!(other.registers.get_slice(16, 17), &[0, 0]);
}

#[test]
fn random_and_takes_the_byte_handed_in() {
    let mut chip8 = loaded(&[0xC4, 0x0F, 0xC4, 0x0F]);
    assert_eq!(chip8.step_with(0xA5, None), Ok(Instruction::Random(4, 0x0F)));
    assert_eq!(chip8.registers[Registers::V4], 0x05);
    assert_eq!(chip8.step_with(0x5A, None), Ok(Instruction::Random(4, 0x0F)));
    assert_eq!(chip8.registers[Registers::V4], 0x0A);
    assert_eq!(chip8.pc, MemoryAddress(0x204));
}

#[test]
fn random_and_stays_within_the_mask() {
    let mut chip8 = Chip8::new();
    for _ in 0..200 {
        chip8.registers.load_scalar(Registers::V0, 0xFF);
        chip8.rand_and(Registers::V0, 0x23);
        assert_eq!(chip8.registers[Registers::V0] & !0x23, 0);
        chip8.rand_and(Registers::V1, 0x00);
        assert_eq!(chip8.registers[Registers::V1], 0);
    }
    let mut chip8 = loaded(&[0xC7, 0x81]);
    chip8.registers.load_scalar(Registers::V7, 0x7E);
    assert_eq!(chip8.step(), Ok(Instruction::Random(7, 0x81)));
    assert_eq!(chip8.registers[Registers::V7] & 0x7E, 0);
}

#[test]
fn keyboard_instructions_take_the_key_handed_in() {
    let mut chip8 = loaded(&[0xE1, 0x9E, 0xE1, 0xA1, 0xF2, 0x0A]);
    chip8.registers.load_scalar(Registers::V1, 4);
    assert_eq!(chip8.step_with(0, Some(5)), Ok(Instruction::SkipKey(1)));
    assert_eq!(chip8.pc, MemoryAddress(0x202));
    chip8.pc = MemoryAddress(0x200);
    assert_eq!(chip8.step_with(0, None), Ok(Instruction::SkipKey(1)));
    assert_eq!(chip8.pc, MemoryAddress(0x202));
    chip8.pc = MemoryAddress(0x200);
    assert_eq!(chip8.step_with(0, Some(4)), Ok(Instruction::SkipKey(1)));
    assert_eq!(chip8.pc, MemoryAddress(0x204));
    chip8.pc = MemoryAddress(0x202);
    assert_eq!(chip8.step_with(0, Some(4)), Ok(Instruction::SkipNotKey(1)));
    assert_eq!(chip8.pc, MemoryAddress(0x204));
    chip8.pc = MemoryAddress(0x202);
    assert_eq!(chip8.step_with(0, None), Ok(Instruction::SkipNotKey(1)));
    assert_eq!(chip8.pc, MemoryAddress(0x206));
    chip8.pc = MemoryAddress(0x202);
    assert_eq!(chip8.step_with(0, Some(5)), Ok(Instruction::SkipNotKey(1)));
    assert_eq!(chip8.pc, MemoryAddress(0x206));
    chip8.pc = MemoryAddress(0x204);
    assert_eq!(chip8.step_with(0, Some(0xE)), Ok(Instruction::WaitKey(2)));
    assert_eq!(chip8.registers[Registers::V2], 0xE);
    assert_eq!(chip8.pc, MemoryAddress(0x206));
    chip8.pc = MemoryAddress(0x204);
    assert_eq!(chip8.step_with(0, None), Ok(Instruction::WaitKey(2)));
    assert_eq!(chip8.registers[Registers::V2], 0xE);
    assert_eq!(chip8.pc, MemoryAddress(0x206));
}

#[test]
fn keyboard_instructions_read_the_shared_keyboard() {
    let mut chip8 = loaded(&[0xE1, 0x9E, 0xE1, 0xA1, 0xF2, 0x0A]);
    chip8.registers.load_scalar(Registers::V1, 4);
    chip8.keyboard.set_key(4);
    assert_eq!(chip8.step(), Ok(Instruction::SkipKey(1)));
    assert_eq!(chip8.pc, MemoryAddress(0x204));
    chip8.pc = MemoryAddress(0x202);
    chip8.keyboard.set_key(9);
    assert_eq!(chip8.step(), Ok(Instruction::SkipNotKey(1)));
    assert_eq!(chip8.pc, MemoryAddress(0x206));
    chip8.pc = MemoryAddress(0x204);
    assert_eq!(chip8.step(), Ok(Instruction::WaitKey(2)));
    assert_eq!(chip8.registers[Registers::V2], 9);
    assert_eq!(chip8.pc, MemoryAddress(0x206));
}

#[test]
fn unreadable_instruction_is_reported() {
    let mut chip8 = Chip8::new();
    chip8.memory.write_bytes(MemoryAddress(0x0FFF), &[0x6A]);
    chip8.jump(MemoryAddress(0x0FFF));
    assert_eq!(
        chip8.step(),
        Err(StepError::Unreadable { address: MemoryAddress(0x0FFF), byte: 0x6A })
    );
    assert_eq!(chip8.pc, MemoryAddress(0x0FFF));
    chip8.jump(MemoryAddress(0x2FFF));
    assert_eq!(
        chip8.fetch(),
        Err(StepError::Unreadable { address: MemoryAddress(0x2FFF), byte: 0x6A })
    );
    chip8.jump(MemoryAddress(0x0FFE));
    assert_eq!(chip8.fetch(), Ok(Instruction::Sys(0x06A)));
}

#[test]
fn unknown_opcodes_are_reported_and_change_nothing() {
    for word in [0x5121u16, 0x512F, 0x8128, 0x812D, 0x812F, 0x9121, 0xE19F, 0xE100, 0xF100, 0xF166, 0xFFFF] {
        let mut chip8 = loaded(&[(word >> 8) as u8, word as u8]);
        let outcome = chip8.step();
        assert_eq!(
            outcome,
            Err(StepError::UnknownOpcode { address: MemoryAddress(0x200), opcode: word })
        );
        assert_eq!(chip8.pc, MemoryAddress(0x200));
        assert_eq!(chip8.registers.get_slice(0, 17), &[0u8; 18]);
    }
}

#[test]
fn memory_overrun_is_reported_and_changes_nothing() {
    let mut chip8 = loaded(&[0xF0, 0x33, 0xF2, 0x55, 0xF2, 0x65]);
    chip8.load_i(MemoryAddress(0xFFE));
    assert_eq!(
        chip8.step(),
        Err(StepError::MemoryOverrun { address: MemoryAddress(0x200), opcode: 0xF033 })
    );
    assert_eq!(chip8.pc, MemoryAddress(0x200));
    assert_eq!(chip8.memory.read_bytes(MemoryAddress(0xFFE), 2), &[0, 0]);
    chip8.jump(MemoryAddress(0x202));
    assert_eq!(
        chip8.step(),
        Err(StepError::MemoryOverrun { address: MemoryAddress(0x202), opcode: 0xF255 })
    );
    chip8.jump(MemoryAddress(0x204));
    assert_eq!(
        chip8.step(),
        Err(StepError::MemoryOverrun { address: MemoryAddress(0x204), opcode: 0xF265 })
    );
    chip8.load_i(MemoryAddress(0xFFD));
    assert_eq!(chip8.step(), Ok(Instruction::LoadRegisters(2)));
    chip8.jump(MemoryAddress(0x200));
    assert_eq!(chip8.step(), Ok(Instruction::Decimal(0)));
}

#[test]
fn display_overrun_is_reported_and_changes_nothing() {
    let mut chip8 = loaded(&[0xD1, 0x22]);
    chip8.registers.load_scalar(Registers::V2, 31);
    chip8.load_i(MemoryAddress(0));
    assert_eq!(
        chip8.step(),
        Err(StepError::DisplayOverrun { address: MemoryAddress(0x200), opcode: 0xD122 })
    );
    assert_eq!(chip8.display, [0u8; 256]);
    assert_eq!(chip8.pc, MemoryAddress(0x200));
    chip8.registers.load_scalar(Registers::V2, 30);
    assert_eq!(chip8.step(), Ok(Instruction::Draw(1, 2, 2)));
    assert_eq!(chip8.display[240], 0xF0);
    assert_eq!(chip8.display[248], 0x90);
}

#[test]
fn execute_runs_an_instruction_that_was_not_fetched() {
    let mut chip8 = Chip8::new();
    chip8.execute(Instruction::LoadScalar(3, 9), 0, None);
    assert_eq!(chip8.registers[Registers::V3], 9);
    assert_eq!(chip8.pc, MemoryAddress(0x202));
    chip8.execute(Instruction::Jump(0x300), 0, None);
    assert_eq!(chip8.pc, MemoryAddress(0x300));
    assert!(chip8.memory_fits(Instruction::Decimal(0)));
    assert!(chip8.display_fits(Instruction::Draw(0, 0, 5)));
    chip8.load_i(MemoryAddress(0xFFF));
    assert!(!chip8.memory_fits(Instruction::Decimal(0)));
    assert!(chip8.memory_fits(Instruction::StoreRegisters(0)));
    assert!(!chip8.memory_fits(Instruction::LoadRegisters(1)));
}
