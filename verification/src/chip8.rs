pub mod display;
pub mod instruction;
pub mod keyboard;
pub mod machine;
pub mod memory;
pub mod registers;
pub mod stack;

use vstd::prelude::*;
use crate::util::{copy_into, low_nibble};
use display::{blit, fits, spec_collides, spec_pixel, spec_sprite_pixel};
use instruction::{decode, Instruction};
use keyboard::Keyboard;
use machine::{spec_decimal, spec_font, Machine, StepError};
use memory::{Memory, MemoryAddress};
use registers::{spec_flag, Registers};
use stack::Stack;

verus! {

/// The machine: display, call stack, memory, registers, program counter, index register
/// and the handle to the shared keyboard.
#[derive(Debug)]
pub struct Chip8 {
    /// 64 by 32 pixels, eight to a byte, row by row, the leftmost pixel in the highest bit.
    pub display: [u8; 256],
    pub stack: Stack,
    pub memory: Memory,
    pub registers: Registers,
    /// The program counter: the address of the next instruction.
    pub pc: MemoryAddress,
    /// The index register.
    pub i: MemoryAddress,
    /// The handle to the keyboard. A clone of it goes to the thread that reports key presses.
    pub keyboard: Keyboard,
}

impl View for Chip8 {
    type V = Machine;

    open spec fn view(&self) -> Machine {
        Machine {
            display: self.display@,
            stack: self.stack@,
            memory: self.memory@,
            registers: self.registers@,
            pc: self.pc,
            i: self.i,
            keyboard: self.keyboard,
        }
    }
}

/// `rand::random::<u8>()`: a byte from the thread's random number generator. Nothing is
/// claimed of it: every value can come. The generator panics where the operating system
/// gives it nothing to seed itself with.
#[verifier::external_body]
fn random_byte() -> u8 {
    rand::random::<u8>()
}

impl Chip8 {
    /// The state of a machine is well formed where that of its call stack is, which every
    /// function of the stack tells.
    pub proof fn lemma_wf(&self)
        requires
            self.stack@.wf(),
        ensures
            self@.wf(),
    {
        self.memory.lemma_len();
        self.registers.lemma_len();
    }

    /// The machine as it is switched on, with a keyboard of its own on which no key is
    /// down.
    pub fn new() -> (chip8: Self)
        ensures
            chip8@ == Machine::initial(chip8.keyboard),
            chip8@.wf(),
            chip8.keyboard.first_key() is None,
    {
        let chip8 = Self {
            display: [0;256],
            stack: Stack::new(),
            memory: Memory::new(),
            registers: Registers::new(),
            pc: MemoryAddress::program_start(),
            i: MemoryAddress::zero(),
            keyboard: Keyboard::new(),
        };
        assert(chip8.display@ =~= Seq::new(256, |k: int| 0u8));
        let chip8 = chip8.initialize_digit_sprites();
        proof {
            chip8.lemma_wf();
        }
        chip8
    }

    /// Writes the glyphs of the sixteen hexadecimal digits to memory, five bytes each, from
    /// address 0 on.
    pub fn initialize_digit_sprites(self) -> (chip8: Self)
        ensures
            chip8@ == self@.with_memory(memory::spec_write(self@.memory, 0, spec_font())),
    {
        let font: [u8; 80] = [
            0xF0, 0x90, 0x90, 0x90, 0xF0,
            0x20, 0x60, 0x20, 0x20, 0x70,
            0xF0, 0x10, 0xF0, 0x80, 0xF0,
            0xF0, 0x10, 0xF0, 0x10, 0xF0,
            0x90, 0x90, 0xF0, 0x10, 0x10,
            0xF0, 0x80, 0xF0, 0x10, 0xF0,
            0xF0, 0x80, 0xF0, 0x90, 0xF0,
            0xF0, 0x10, 0x20, 0x40, 0x40,
            0xF0, 0x90, 0xF0, 0x90, 0xF0,
            0xF0, 0x90, 0xF0, 0x10, 0xF0,
            0xF0, 0x90, 0xF0, 0x90, 0x90,
            0xE0, 0x90, 0xE0, 0x90, 0xE0,
            0xF0, 0x80, 0x80, 0x80, 0xF0,
            0xE0, 0x90, 0x90, 0x90, 0xE0,
            0xF0, 0x80, 0xF0, 0x80, 0xF0,
            0xF0, 0x80, 0xF0, 0x80, 0x80,
        ];
        let mut chip8 = self;
        chip8.memory.write_bytes(MemoryAddress(0), font.as_slice());
        chip8
    }

    /// Copies `program` into memory from address 0x200 on.
    pub fn load_program(&mut self, program: &[u8])
        requires
            program@.len() <= 4096 - 0x200,
        ensures
            final(self)@ == old(self)@.load_program(program@),
    {
        self.memory.write_bytes(MemoryAddress::program_start(), program);
    }

    /// Clears every pixel of the display.
    pub fn clear_screen(&mut self)
        ensures
            final(self)@ == old(self)@.clear_screen(),
    {
        self.display = [0;256];
        assert(self.display@ =~= Seq::new(256, |k: int| 0u8));
    }

    /// Returns from a subroutine: pops the program counter off the call stack.
    pub fn ret(&mut self)
        ensures
            final(self)@ == old(self)@.ret(),
    {
        self.pc = self.stack.pop();
    }

    /// Sets the program counter to `addr`.
    pub fn jump(&mut self, addr: MemoryAddress)
        ensures
            final(self)@ == old(self)@.jump(addr),
            final(self).pc == addr,
    {
        self.pc = addr;
    }

    /// Calls the subroutine at `addr`: pushes the program counter as it stands, then jumps.
    pub fn call(&mut self, addr: MemoryAddress)
        ensures
            final(self)@ == old(self)@.call(addr),
    {
        self.stack.push(self.pc);
        self.pc = addr;
    }

    /// Moves the program counter on by one instruction where `Vx == value`.
    pub fn skip_next_eq(&mut self, vx: u8, value: u8)
        requires
            vx < 18,
        ensures
            final(self)@ == old(self)@.skip_if(old(self).registers[vx] == value),
    {
        if self.registers.cmp_scalar(vx, value) {
            self.pc.next_instruction();
        }
    }

    /// Moves the program counter on by one instruction where `Vx != value`.
    pub fn skip_next_ne(&mut self, vx: u8, value: u8)
        requires
            vx < 18,
        ensures
            final(self)@ == old(self)@.skip_if(old(self).registers[vx] != value),
    {
        if !self.registers.cmp_scalar(vx, value) {
            self.pc.next_instruction();
        }
    }

    /// Moves the program counter on by one instruction where `Vx == Vy`.
    pub fn skip_next_eq_reg(&mut self, vx: u8, vy: u8)
        requires
            vx < 18,
            vy < 18,
        ensures
            final(self)@ == old(self)@.skip_if(old(self).registers[vx] == old(self).registers[vy]),
    {
        if self.registers.cmp_register(vx, vy) {
            self.pc.next_instruction();
        }
    }

    /// Moves the program counter on by one instruction where `Vx != Vy`.
    pub fn skip_next_ne_reg(&mut self, vx: u8, vy: u8)
        requires
            vx < 18,
            vy < 18,
        ensures
            final(self)@ == old(self)@.skip_if(old(self).registers[vx] != old(self).registers[vy]),
    {
        if !self.registers.cmp_register(vx, vy) {
            self.pc.next_instruction();
        }
    }

    /// Sets the index register to `addr`.
    pub fn load_i(&mut self, addr: MemoryAddress)
        ensures
            final(self)@ == old(self)@.with_index(addr),
    {
        self.i = addr;
    }

    /// Sets the program counter to `addr + V0`, wrapping at 16 bits. The sum is not cut to
    /// twelve bits; memory cuts an address when it is used.
    pub fn jump_reg0(&mut self, addr: MemoryAddress)
        ensures
            final(self)@ == old(self)@.jump_reg0(addr),
    {
        self.jump(addr + self.registers[Registers::V0]);
    }

    /// `Vx = value & random`, for a random byte handed in.
    pub fn rand_and_with(&mut self, vx: u8, value: u8, random: u8)
        requires
            vx < 18,
        ensures
            final(self)@ == old(self)@.rand_and(vx, value, random),
    {
        self.registers.load_scalar(vx, value & random);
    }

    /// `Vx = value &` a random byte.
    pub fn rand_and(&mut self, vx: u8, value: u8)
        requires
            vx < 18,
        ensures
            exists|random: u8| final(self)@ == old(self)@.rand_and(vx, value, random),
    {
        let random: u8 = random_byte();
        self.rand_and_with(vx, value, random);
    }

    /// Draws the sprite of `arg3 % 16` rows that the index register points to, at column
    /// `V[arg1]` of row `V[arg2]`, and sets `VF` to 1 where a set pixel was cleared, else to
    /// 0. A pixel of the display changes exactly where the sprite has a set pixel.
    pub fn draw_sprite(&mut self, arg1: u8, arg2: u8, arg3: u8)
        requires
            arg1 < 18,
            arg2 < 18,
            old(self)@.draw_fits(arg1, arg2, arg3),
        ensures
            final(self)@ == old(self)@.draw_sprite(arg1, arg2, arg3),
            forall|p: int|
                0 <= p < 2048 ==> #[trigger] spec_pixel(final(self).display@, p) == (spec_pixel(
                    old(self).display@,
                    p,
                ) != spec_sprite_pixel(
                    old(self)@.sprite(arg3),
                    old(self).registers[arg1],
                    old(self).registers[arg2],
                    p,
                )),
            final(self).registers[Registers::VF] == spec_flag(
                exists|p: int|
                    #[trigger] spec_collides(
                        old(self).display@,
                        old(self)@.sprite(arg3),
                        old(self).registers[arg1],
                        old(self).registers[arg2],
                        p,
                    ),
            ),
    {
        let x: u8 = self.registers[arg1];
        let y: u8 = self.registers[arg2];
        let n: usize = low_nibble(arg3) as usize;
        let sprite_data = self.memory.read_bytes(self.i, n);
        let erased: bool = blit(&mut self.display, sprite_data, x, y);
        proof {
            self.registers.lemma_len();
        }
        self.registers.load_scalar(Registers::VF, if erased { 1 } else { 0 });
    }

    /// Skips the next instruction where `key` is the key whose number `V[arg1]` holds.
    pub fn skip_input_with(&mut self, arg1: u8, key: Option<u8>)
        requires
            arg1 < 18,
        ensures
            final(self)@ == old(self)@.skip_input(arg1, key),
    {
        if let Some(key_pressed) = key {
            if key_pressed == self.registers[arg1] {
                self.pc.next_instruction();
            }
        }
    }

    /// Skips the next instruction where the key that is down now is the one whose number
    /// `V[arg1]` holds. Does not wait.
    pub fn skip_input(&mut self, arg1: u8)
        requires
            arg1 < 18,
        ensures
            exists|key: Option<u8>| final(self)@ == old(self)@.skip_input(arg1, key),
    {
        let key: Option<u8> = self.keyboard.current_key();
        self.skip_input_with(arg1, key);
    }

    /// Skips the next instruction unless `key` is the key whose number `V[arg1]` holds.
    pub fn skip_not_input_with(&mut self, arg1: u8, key: Option<u8>)
        requires
            arg1 < 18,
        ensures
            final(self)@ == old(self)@.skip_not_input(arg1, key),
    {
        let pressed: bool = match key {
            Some(key_pressed) => key_pressed == self.registers[arg1],
            None => false,
        };
        if !pressed {
            self.pc.next_instruction();
        }
    }

    /// Skips the next instruction unless the key that is down now is the one whose number
    /// `V[arg1]` holds. Does not wait.
    pub fn skip_not_input(&mut self, arg1: u8)
        requires
            arg1 < 18,
        ensures
            exists|key: Option<u8>| final(self)@ == old(self)@.skip_not_input(arg1, key),
    {
        let key: Option<u8> = self.keyboard.current_key();
        self.skip_not_input_with(arg1, key);
    }

    /// Stores `key` in `Vx`; with no key the register stays as it is.
    pub fn load_input_with(&mut self, vx: u8, key: Option<u8>)
        requires
            vx < 18,
        ensures
            final(self)@ == old(self)@.load_input(vx, key),
    {
        if let Some(key_pressed) = key {
            self.registers.load_scalar(vx, key_pressed);
        }
    }

    /// Blocks until a key is down and stores it in `Vx`.
    pub fn load_input(&mut self, vx: u8)
        requires
            vx < 18,
        ensures
            exists|key: Option<u8>| final(self)@ == old(self)@.load_input(vx, key),
    {
        let key: Option<u8> = self.keyboard.wait_key();
        self.load_input_with(vx, key);
    }

    /// Adds `Vx` to the index register, wrapping at 16 bits, without a flag.
    pub fn add_i_reg(&mut self, vx: u8)
        requires
            vx < 18,
        ensures
            final(self)@ == old(self)@.add_i_reg(vx),
    {
        self.i = self.i + self.registers[vx];
    }

    /// Sets the index register to the address of the glyph for the digit in `V[arg1]`: five
    /// times its value.
    pub fn load_digit_sprite(&mut self, arg1: u8)
        requires
            arg1 < 18,
        ensures
            final(self)@ == old(self)@.load_digit_sprite(arg1),
    {
        self.i = MemoryAddress((self.registers[arg1] as u16) * 5);
    }

    /// Writes the hundreds, tens and ones of `Vx` to the three cells at the index
    /// register.
    pub fn load_binary_coded_decimal(&mut self, vx: u8)
        requires
            vx < 18,
            old(self).i.cell() + 3 <= 4096,
        ensures
            final(self)@ == old(self)@.load_binary_coded_decimal(vx),
    {
        let mut value: u8 = self.registers[vx];
        let hundreds: u8 = value / 100;
        value %= 100;
        let tens: u8 = value / 10;
        value %= 10;
        let ones: u8 = value;
        let digits: [u8; 3] = [hundreds, tens, ones];
        self.memory.write_bytes(self.i, digits.as_slice());
    }

    /// Copies `V0..=Vy` to memory from the index register on.
    pub fn store_regs(&mut self, vy: u8)
        requires
            vy < 18,
            old(self).i.cell() + vy + 1 <= 4096,
        ensures
            final(self)@ == old(self)@.store_regs(vy),
    {
        proof {
            self.registers.lemma_len();
        }
        self.memory.write_bytes(self.i, self.registers.get_slice(Registers::V0, vy));
    }

    /// Copies memory from the index register on to `V0..=Vy`.
    pub fn load_regs(&mut self, vy: u8)
        requires
            vy < 18,
            old(self).i.cell() + vy + 1 <= 4096,
        ensures
            final(self)@ == old(self)@.load_regs(vy),
    {
        let n: usize = vy as usize + 1;
        proof {
            self.memory.lemma_len();
            self.registers.lemma_len();
        }
        let data = self.memory.read_bytes(self.i, n);
        copy_into(self.registers.get_slice_mut(Registers::V0, vy), data);
    }

    /// Whether the memory cells that `instruction` reads or writes as a block all exist.
    pub fn memory_fits(&self, instruction: Instruction) -> (inside: bool)
        ensures
            inside == self@.memory_fits(instruction),
    {
        let raw: u16 = self.i.0;
        let at: usize = (raw & 0x0FFF) as usize;
        assert(raw & 0x0FFF == raw % 4096) by (bit_vector);
        match instruction {
            Instruction::Decimal(_) => at + 3 <= 4096,
            Instruction::StoreRegisters(vy) => at + vy as usize + 1 <= 4096,
            Instruction::LoadRegisters(vy) => at + vy as usize + 1 <= 4096,
            _ => true,
        }
    }

    /// Whether the pixels that `instruction` draws are all on the display.
    pub fn display_fits(&self, instruction: Instruction) -> (inside: bool)
        requires
            instruction.wf(),
        ensures
            inside == self@.display_fits(instruction),
    {
        match instruction {
            Instruction::Draw(vx, vy, rows) => {
                let sprite_data = self.memory.read_bytes(self.i, low_nibble(rows) as usize);
                fits(sprite_data.len(), self.registers[vx], self.registers[vy])
            },
            _ => true,
        }
    }

    /// Reads and decodes the instruction at the program counter, and tests whether it can
    /// be executed. Changes nothing.
    pub fn fetch(&self) -> (fetched: Result<Instruction, StepError>)
        ensures
            fetched == self@.fetch(),
            fetched matches Ok(instruction) ==> self@.accepts(instruction),
    {
        proof {
            self.memory.lemma_len();
        }
        let bytes = self.memory.read_bytes(self.pc, 2);
        if bytes.len() != 2 {
            return Err(StepError::Unreadable { address: self.pc, byte: bytes[0] });
        }
        let first: u8 = bytes[0];
        let second: u8 = bytes[1];
        let opcode: u16 = ((first as u16) << 8) | (second as u16);
        assert(((first as u16) << 8) | (second as u16) == first * 256 + second) by (bit_vector);
        match decode(first, second) {
            None => Err(StepError::UnknownOpcode { address: self.pc, opcode }),
            Some(instruction) => {
                if !self.memory_fits(instruction) {
                    Err(StepError::MemoryOverrun { address: self.pc, opcode })
                } else if !self.display_fits(instruction) {
                    Err(StepError::DisplayOverrun { address: self.pc, opcode })
                } else {
                    Ok(instruction)
                }
            },
        }
    }

    /// Does what `instruction` does, before the program counter is moved on.
    fn perform(&mut self, instruction: Instruction, random: u8, key: Option<u8>)
        requires
            old(self)@.accepts(instruction),
        ensures
            final(self)@ == old(self)@.perform(instruction, random, key),
    {
        match instruction {
            Instruction::Sys(_) => {},
            Instruction::ClearScreen => self.clear_screen(),
            Instruction::Return => self.ret(),
            Instruction::Jump(addr) => self.jump(MemoryAddress(addr)),
            Instruction::Call(addr) => self.call(MemoryAddress(addr)),
            Instruction::SkipEqual(vx, value) => self.skip_next_eq(vx, value),
            Instruction::SkipNotEqual(vx, value) => self.skip_next_ne(vx, value),
            Instruction::SkipEqualRegister(vx, vy) => self.skip_next_eq_reg(vx, vy),
            Instruction::LoadScalar(vx, value) => self.registers.load_scalar(vx, value),
            Instruction::AddScalar(vx, value) => self.registers.add_scalar(vx, value),
            Instruction::LoadRegister(vx, vy) => self.registers.load_register(vx, vy),
            Instruction::Or(vx, vy) => self.registers.or_register(vx, vy),
            Instruction::And(vx, vy) => self.registers.and_register(vx, vy),
            Instruction::Xor(vx, vy) => self.registers.xor_register(vx, vy),
            Instruction::Add(vx, vy) => self.registers.add_register(vx, vy),
            Instruction::Sub(vx, vy) => self.registers.sub_register(vx, vy),
            Instruction::ShiftRight(vx) => self.registers.shift_right(vx),
            Instruction::Subn(vx, vy) => self.registers.subn_register(vx, vy),
            Instruction::ShiftLeft(vx) => self.registers.shift_left(vx),
            Instruction::SkipNotEqualRegister(vx, vy) => self.skip_next_ne_reg(vx, vy),
            Instruction::LoadIndex(addr) => self.load_i(MemoryAddress(addr)),
            Instruction::JumpOffset(addr) => self.jump_reg0(MemoryAddress(addr)),
            Instruction::Random(vx, mask) => self.rand_and_with(vx, mask, random),
            Instruction::Draw(vx, vy, rows) => self.draw_sprite(vx, vy, rows),
            Instruction::SkipKey(vx) => self.skip_input_with(vx, key),
            Instruction::SkipNotKey(vx) => self.skip_not_input_with(vx, key),
            Instruction::LoadDelay(vx) => self.registers.load_register(vx, Registers::DT),
            Instruction::WaitKey(vx) => self.load_input_with(vx, key),
            Instruction::SetDelay(vx) => self.registers.load_register(Registers::DT, vx),
            Instruction::SetSound(vx) => self.registers.load_register(Registers::ST, vx),
            Instruction::AddIndex(vx) => self.add_i_reg(vx),
            Instruction::DigitSprite(vx) => self.load_digit_sprite(vx),
            Instruction::Decimal(vx) => self.load_binary_coded_decimal(vx),
            Instruction::StoreRegisters(vy) => self.store_regs(vy),
            Instruction::LoadRegisters(vy) => self.load_regs(vy),
        }
    }

    /// Executes `instruction`, with `random` as the byte drawn where it is a `Random` and
    /// `key` as the key read where it is a keyboard instruction.
    ///
    /// A jump, a call and a return set the program counter themselves. After every other
    /// instruction it moves on by two; after a skip whose condition holds that makes four,
    /// two by the skip and two by the step.
    pub fn execute(&mut self, instruction: Instruction, random: u8, key: Option<u8>)
        requires
            old(self)@.accepts(instruction),
        ensures
            final(self)@ == old(self)@.execute(instruction, random, key),
    {
        self.perform(instruction, random, key);
        let redirected: bool = match instruction {
            Instruction::Return => true,
            Instruction::Jump(_) => true,
            Instruction::Call(_) => true,
            Instruction::JumpOffset(_) => true,
            _ => false,
        };
        if !redirected {
            self.pc.next_instruction();
        }
    }

    /// One step with the outside inputs handed in: `random` for a `Random`, `key` for a
    /// keyboard instruction. Returns the instruction executed, or the reason why none was,
    /// in which case the machine is unchanged.
    pub fn step_with(&mut self, random: u8, key: Option<u8>) -> (outcome: Result<
        Instruction,
        StepError,
    >)
        ensures
            outcome == old(self)@.fetch(),
            final(self)@ == old(self)@.step(random, key),
            outcome is Err ==> final(self)@ == old(self)@,
    {
        match self.fetch() {
            Ok(instruction) => {
                self.execute(instruction, random, key);
                Ok(instruction)
            },
            Err(error) => Err(error),
        }
    }

    /// One step: fetches the instruction at the program counter and executes it. A
    /// `Random` draws its byte from the random number generator; a keyboard instruction
    /// reads the shared keyboard, and `WaitKey` blocks until a key is down. Returns the
    /// instruction executed, or the reason why none was, in which case the machine is
    /// unchanged. A `Sys` is returned like any other instruction, for the caller to report.
    pub fn step(&mut self) -> (outcome: Result<Instruction, StepError>)
        ensures
            outcome == old(self)@.fetch(),
            exists|random: u8, key: Option<u8>| final(self)@ == old(self)@.step(random, key),
            outcome matches Ok(instruction) ==> (!instruction.reads_random()
                && !instruction.reads_key() ==> final(self)@ == old(self)@.step(0, None)),
            outcome is Err ==> final(self)@ == old(self)@,
    {
        match self.fetch() {
            Ok(instruction) => {
                let random: u8 = match instruction {
                    Instruction::Random(_, _) => random_byte(),
                    _ => 0,
                };
                let key: Option<u8> = match instruction {
                    Instruction::SkipKey(_) => self.keyboard.current_key(),
                    Instruction::SkipNotKey(_) => self.keyboard.current_key(),
                    Instruction::WaitKey(_) => self.keyboard.wait_key(),
                    _ => None,
                };
                self.execute(instruction, random, key);
                assert(self@ == old(self)@.step(random, key));
                Ok(instruction)
            },
            Err(error) => {
                assert(self@ == old(self)@.step(0, None));
                Err(error)
            },
        }
    }
}

} // verus!
