use vstd::prelude::*;
use super::display::{
    lemma_blit_collision,
    lemma_blit_twice,
    spec_blit,
    spec_erases,
    spec_fits,
    spec_pixel,
    spec_sprite_pixel,
};
use super::instruction::{spec_decode, Instruction};
use super::keyboard::Keyboard;
use super::memory::{spec_read, spec_write, MemoryAddress};
use super::registers::{
    spec_add_register,
    spec_flag,
    spec_shift_left,
    spec_shift_right,
    spec_sub_register,
    spec_subn_register,
};
use super::stack::{lemma_push_pop, StackView};

verus! {

/// Why a step did not execute an instruction. Each names the program counter at the step
/// and the bytes read there: the word that the two bytes make, first byte high, or the one
/// byte that was left.
#[derive(Debug, Copy, Clone, PartialEq, Eq, Structural)]
pub enum StepError {
    /// Only one byte, `byte`, is left in memory at the program counter.
    Unreadable { address: MemoryAddress, byte: u8 },
    /// The two bytes encode no instruction.
    UnknownOpcode { address: MemoryAddress, opcode: u16 },
    /// The instruction would read or write memory past its last cell.
    MemoryOverrun { address: MemoryAddress, opcode: u16 },
    /// The instruction would draw past the last pixel of the display.
    DisplayOverrun { address: MemoryAddress, opcode: u16 },
}

/// The glyphs of the hexadecimal digits `0` to `F`, five bytes each, as they lie in memory
/// from address 0 on.
pub open spec fn spec_font() -> Seq<u8> {
    seq![
        0xF0u8, 0x90, 0x90, 0x90, 0xF0,
        0x20, 0x60, 0x20, 0x20, 0x70,
        0xF0, 0x10, 0xF0, 0x80, 0xF0,
        0xF0, 0x10, 0xF0, 0x10, 0xF0,
        0x90, 0x90, 0xF0, 0x10, 0x10,
        0xF0, 0x80, 0xF0, 0x10, 0xF0,
        0xF0, 0x80, 0xF0, 0x90, 0xF0,
        0xF0, 0x10, 0x20, 0x40, 0x40,
        0xF0, 0x90, 0xF0, 0x90, 0xF0,
        0xF0, 0x90, 0xF0, 0x10, 0xF0,
        0xF0, 0x90, 0xF0, 0x90, 0x90,
        0xE0, 0x90, 0xE0, 0x90, 0xE0,
        0xF0, 0x80, 0x80, 0x80, 0xF0,
        0xE0, 0x90, 0x90, 0x90, 0xE0,
        0xF0, 0x80, 0xF0, 0x80, 0xF0,
        0xF0, 0x80, 0xF0, 0x80, 0x80,
    ]
}

/// The three decimal digits of `value`, hundreds first.
pub open spec fn spec_decimal(value: u8) -> Seq<u8> {
    seq![value / 100, (value / 10) % 10, value % 10]
}

/// The state of the machine as a mathematical value. Which key is down is no part of it:
/// other threads change that.
pub struct Machine {
    /// 256 bytes, eight to a display row, the leftmost pixel in the highest bit.
    pub display: Seq<u8>,
    pub stack: StackView,
    /// 4096 cells.
    pub memory: Seq<u8>,
    /// `V0`..`VF`, delay timer, sound timer.
    pub registers: Seq<u8>,
    pub pc: MemoryAddress,
    pub i: MemoryAddress,
    /// The handle through which the machine reads the shared keyboard.
    pub keyboard: Keyboard,
}

impl Machine {
    pub open spec fn wf(self) -> bool {
        &&& self.display.len() == 256
        &&& self.stack.wf()
        &&& self.memory.len() == 4096
        &&& self.registers.len() == 18
    }

    /// The machine as it is made: glyphs at address 0, the program counter at 0x200, all
    /// else zero.
    pub open spec fn initial(keyboard: Keyboard) -> Machine {
        Machine {
            display: Seq::new(256, |k: int| 0u8),
            stack: StackView { slots: Seq::new(16, |k: int| MemoryAddress(0)), cursor: 0 },
            memory: spec_write(Seq::new(4096, |k: int| 0u8), 0, spec_font()),
            registers: Seq::new(18, |k: int| 0u8),
            pc: MemoryAddress(0x200),
            i: MemoryAddress(0),
            keyboard,
        }
    }

    pub open spec fn with_registers(self, registers: Seq<u8>) -> Machine {
        Machine { registers, ..self }
    }

    pub open spec fn with_memory(self, memory: Seq<u8>) -> Machine {
        Machine { memory, ..self }
    }

    pub open spec fn with_index(self, i: MemoryAddress) -> Machine {
        Machine { i, ..self }
    }

    /// The value of register `r`.
    pub open spec fn reg(self, r: u8) -> u8 {
        self.registers[r as int]
    }

    pub open spec fn load_program(self, program: Seq<u8>) -> Machine {
        self.with_memory(spec_write(self.memory, 0x200, program))
    }

    pub open spec fn clear_screen(self) -> Machine {
        Machine { display: Seq::new(256, |k: int| 0u8), ..self }
    }

    /// The program counter becomes the address below the stack's cursor, and the cursor
    /// moves back to it.
    pub open spec fn ret(self) -> Machine {
        Machine { stack: self.stack.pop(), pc: self.stack.top(), ..self }
    }

    pub open spec fn jump(self, addr: MemoryAddress) -> Machine {
        Machine { pc: addr, ..self }
    }

    /// The program counter is pushed as it stands, then replaced by `addr`.
    pub open spec fn call(self, addr: MemoryAddress) -> Machine {
        Machine { stack: self.stack.push(self.pc), pc: addr, ..self }
    }

    /// The program counter moves on by one instruction, two bytes, wrapping at 16 bits.
    pub open spec fn advance(self) -> Machine {
        Machine { pc: self.pc.offset(2), ..self }
    }

    /// The program counter moves on by one instruction where `condition` holds.
    pub open spec fn skip_if(self, condition: bool) -> Machine {
        if condition {
            self.advance()
        } else {
            self
        }
    }

    /// The program counter becomes `addr + V0`, wrapping at 16 bits and not cut to
    /// twelve.
    pub open spec fn jump_reg0(self, addr: MemoryAddress) -> Machine {
        self.jump(addr.offset(self.reg(0) as int))
    }

    pub open spec fn rand_and(self, vx: u8, value: u8, random: u8) -> Machine {
        self.with_registers(self.registers.update(vx as int, value & random))
    }

    /// The rows of the sprite that a draw of `rows % 16` rows reads: the bytes at the
    /// index register, fewer where memory ends before.
    pub open spec fn sprite(self, rows: u8) -> Seq<u8> {
        spec_read(self.memory, self.i.cell(), (rows % 16) as int)
    }

    /// Whether the sprite that a draw with these operands reads stays on the display.
    pub open spec fn draw_fits(self, vx: u8, vy: u8, rows: u8) -> bool {
        spec_fits(self.sprite(rows).len() as int, self.reg(vx), self.reg(vy))
    }

    /// The sprite is combined into the display by exclusive or at column `Vx` of row `Vy`,
    /// and `VF` becomes 1 where that cleared a set pixel, else 0.
    pub open spec fn draw_sprite(self, vx: u8, vy: u8, rows: u8) -> Machine {
        let sprite = self.sprite(rows);
        let x = self.reg(vx);
        let y = self.reg(vy);
        Machine {
            display: spec_blit(self.display, sprite, x, y),
            registers: self.registers.update(
                0xF,
                spec_flag(spec_erases(self.display, sprite, x, y)),
            ),
            ..self
        }
    }

    /// Skips where a key is down and it is the one whose number `Vx` holds.
    pub open spec fn skip_input(self, vx: u8, key: Option<u8>) -> Machine {
        self.skip_if(key == Some(self.reg(vx)))
    }

    /// Skips unless the key whose number `Vx` holds is down: where another key is down, and
    /// where none is.
    pub open spec fn skip_not_input(self, vx: u8, key: Option<u8>) -> Machine {
        self.skip_if(key != Some(self.reg(vx)))
    }

    /// `Vx` takes the key; with none it stays as it is.
    pub open spec fn load_input(self, vx: u8, key: Option<u8>) -> Machine {
        match key {
            Some(pressed) => self.with_registers(self.registers.update(vx as int, pressed)),
            None => self,
        }
    }

    pub open spec fn add_i_reg(self, vx: u8) -> Machine {
        self.with_index(self.i.offset(self.reg(vx) as int))
    }

    pub open spec fn load_digit_sprite(self, vx: u8) -> Machine {
        self.with_index(MemoryAddress((self.reg(vx) * 5) as u16))
    }

    pub open spec fn load_binary_coded_decimal(self, vx: u8) -> Machine {
        self.with_memory(spec_write(self.memory, self.i.cell(), spec_decimal(self.reg(vx))))
    }

    pub open spec fn store_regs(self, vy: u8) -> Machine {
        self.with_memory(
            spec_write(self.memory, self.i.cell(), self.registers.subrange(0, vy + 1)),
        )
    }

    pub open spec fn load_regs(self, vy: u8) -> Machine {
        self.with_registers(
            self.memory.subrange(self.i.cell(), self.i.cell() + vy + 1) + self.registers.subrange(
                vy + 1,
                18,
            ),
        )
    }

    /// Whether the memory cells that `instruction` reads or writes as a block all exist.
    pub open spec fn memory_fits(self, instruction: Instruction) -> bool {
        match instruction {
            Instruction::Decimal(_) => self.i.cell() + 3 <= 4096,
            Instruction::StoreRegisters(vy) => self.i.cell() + vy + 1 <= 4096,
            Instruction::LoadRegisters(vy) => self.i.cell() + vy + 1 <= 4096,
            _ => true,
        }
    }

    /// Whether the pixels that `instruction` draws are all on the display.
    pub open spec fn display_fits(self, instruction: Instruction) -> bool {
        match instruction {
            Instruction::Draw(vx, vy, rows) => self.draw_fits(vx, vy, rows),
            _ => true,
        }
    }

    /// Whether `instruction` can be executed in this state.
    pub open spec fn accepts(self, instruction: Instruction) -> bool {
        &&& instruction.wf()
        &&& self.memory_fits(instruction)
        &&& self.display_fits(instruction)
    }

    /// What `instruction` does to the machine, before the program counter is moved on.
    /// `random` is the byte drawn for a `Random`, `key` the key read for a keyboard
    /// instruction.
    pub open spec fn perform(self, instruction: Instruction, random: u8, key: Option<u8>) -> Machine {
        match instruction {
            Instruction::Sys(_) => self,
            Instruction::ClearScreen => self.clear_screen(),
            Instruction::Return => self.ret(),
            Instruction::Jump(addr) => self.jump(MemoryAddress(addr)),
            Instruction::Call(addr) => self.call(MemoryAddress(addr)),
            Instruction::SkipEqual(vx, value) => self.skip_if(self.reg(vx) == value),
            Instruction::SkipNotEqual(vx, value) => self.skip_if(self.reg(vx) != value),
            Instruction::SkipEqualRegister(vx, vy) => self.skip_if(self.reg(vx) == self.reg(vy)),
            Instruction::LoadScalar(vx, value) => self.with_registers(
                self.registers.update(vx as int, value),
            ),
            Instruction::AddScalar(vx, value) => self.with_registers(
                self.registers.update(vx as int, ((self.reg(vx) + value) % 256) as u8),
            ),
            Instruction::LoadRegister(vx, vy) => self.with_registers(
                self.registers.update(vx as int, self.reg(vy)),
            ),
            Instruction::Or(vx, vy) => self.with_registers(
                self.registers.update(vx as int, self.reg(vx) | self.reg(vy)),
            ),
            Instruction::And(vx, vy) => self.with_registers(
                self.registers.update(vx as int, self.reg(vx) & self.reg(vy)),
            ),
            Instruction::Xor(vx, vy) => self.with_registers(
                self.registers.update(vx as int, self.reg(vx) ^ self.reg(vy)),
            ),
            Instruction::Add(vx, vy) => self.with_registers(
                spec_add_register(self.registers, vx as int, vy as int),
            ),
            Instruction::Sub(vx, vy) => self.with_registers(
                spec_sub_register(self.registers, vx as int, vy as int),
            ),
            Instruction::ShiftRight(vx) => self.with_registers(
                spec_shift_right(self.registers, vx as int),
            ),
            Instruction::Subn(vx, vy) => self.with_registers(
                spec_subn_register(self.registers, vx as int, vy as int),
            ),
            Instruction::ShiftLeft(vx) => self.with_registers(
                spec_shift_left(self.registers, vx as int),
            ),
            Instruction::SkipNotEqualRegister(vx, vy) => self.skip_if(
                self.reg(vx) != self.reg(vy),
            ),
            Instruction::LoadIndex(addr) => self.with_index(MemoryAddress(addr)),
            Instruction::JumpOffset(addr) => self.jump_reg0(MemoryAddress(addr)),
            Instruction::Random(vx, mask) => self.rand_and(vx, mask, random),
            Instruction::Draw(vx, vy, rows) => self.draw_sprite(vx, vy, rows),
            Instruction::SkipKey(vx) => self.skip_input(vx, key),
            Instruction::SkipNotKey(vx) => self.skip_not_input(vx, key),
            Instruction::LoadDelay(vx) => self.with_registers(
                self.registers.update(vx as int, self.reg(0x10)),
            ),
            Instruction::WaitKey(vx) => self.load_input(vx, key),
            Instruction::SetDelay(vx) => self.with_registers(
                self.registers.update(0x10, self.reg(vx)),
            ),
            Instruction::SetSound(vx) => self.with_registers(
                self.registers.update(0x11, self.reg(vx)),
            ),
            Instruction::AddIndex(vx) => self.add_i_reg(vx),
            Instruction::DigitSprite(vx) => self.load_digit_sprite(vx),
            Instruction::Decimal(vx) => self.load_binary_coded_decimal(vx),
            Instruction::StoreRegisters(vy) => self.store_regs(vy),
            Instruction::LoadRegisters(vy) => self.load_regs(vy),
        }
    }

    /// Whether `instruction` is a skip whose condition holds.
    pub open spec fn skips(self, instruction: Instruction, key: Option<u8>) -> bool {
        match instruction {
            Instruction::SkipEqual(vx, value) => self.reg(vx) == value,
            Instruction::SkipNotEqual(vx, value) => self.reg(vx) != value,
            Instruction::SkipEqualRegister(vx, vy) => self.reg(vx) == self.reg(vy),
            Instruction::SkipNotEqualRegister(vx, vy) => self.reg(vx) != self.reg(vy),
            Instruction::SkipKey(vx) => key == Some(self.reg(vx)),
            Instruction::SkipNotKey(vx) => key != Some(self.reg(vx)),
            _ => false,
        }
    }

    /// Whether `instruction` sets the program counter itself: a jump, a call or a return.
    pub open spec fn redirects(instruction: Instruction) -> bool {
        ||| instruction is Return
        ||| instruction is Jump
        ||| instruction is Call
        ||| instruction is JumpOffset
    }

    /// The machine after `instruction`: what the instruction does, and then the program
    /// counter moved on by two unless the instruction has set it itself. A skip whose
    /// condition holds has moved the program counter on by two already, so that it ends
    /// four bytes on and the instruction that follows the skip is left out.
    pub open spec fn execute(self, instruction: Instruction, random: u8, key: Option<u8>) -> Machine {
        if Self::redirects(instruction) {
            self.perform(instruction, random, key)
        } else {
            self.perform(instruction, random, key).advance()
        }
    }

    /// The instruction at the program counter, or the reason why none can be executed
    /// there.
    pub open spec fn fetch(self) -> Result<Instruction, StepError> {
        let at = self.pc.cell();
        if at + 2 > 4096 {
            Err(StepError::Unreadable { address: self.pc, byte: self.memory[at] })
        } else {
            let opcode = (self.memory[at] * 256 + self.memory[at + 1]) as u16;
            match spec_decode(self.memory[at], self.memory[at + 1]) {
                None => Err(StepError::UnknownOpcode { address: self.pc, opcode }),
                Some(instruction) => if !self.memory_fits(instruction) {
                    Err(StepError::MemoryOverrun { address: self.pc, opcode })
                } else if !self.display_fits(instruction) {
                    Err(StepError::DisplayOverrun { address: self.pc, opcode })
                } else {
                    Ok(instruction)
                },
            }
        }
    }

    /// The machine after one step: the fetched instruction executed, or the machine
    /// unchanged where none could be fetched.
    pub open spec fn step(self, random: u8, key: Option<u8>) -> Machine {
        match self.fetch() {
            Ok(instruction) => self.execute(instruction, random, key),
            Err(_) => self,
        }
    }
}

/// A call followed at once by a return restores the program counter and the depth of the
/// call stack, and changes nothing but the stack slot that held the return address. The
/// same holds of the two instructions executed one after the other.
pub proof fn lemma_call_ret(machine: Machine, addr: MemoryAddress)
    requires
        machine.wf(),
    ensures
        machine.call(addr).ret().pc == machine.pc,
        machine.call(addr).ret().stack.cursor == machine.stack.cursor,
        machine.call(addr).ret() == (Machine {
            stack: StackView {
                slots: machine.stack.slots.update(machine.stack.cursor, machine.pc),
                cursor: machine.stack.cursor,
            },
            ..machine
        }),
        forall|random: u8, key: Option<u8>|
            #![trigger machine.execute(Instruction::Call(addr.0), random, key)]
            machine.execute(Instruction::Call(addr.0), random, key).execute(
                Instruction::Return,
                random,
                key,
            ) == machine.call(addr).ret(),
{
    lemma_push_pop(machine.stack, machine.pc);
}

/// After an instruction the program counter is where a jump, a call or a return has set
/// it, four bytes on after a skip whose condition holds, and two bytes on after every
/// other instruction.
pub proof fn lemma_program_counter(
    machine: Machine,
    instruction: Instruction,
    random: u8,
    key: Option<u8>,
)
    ensures
        machine.execute(instruction, random, key).pc == (match instruction {
            Instruction::Return => machine.stack.top(),
            Instruction::Jump(addr) => MemoryAddress(addr),
            Instruction::Call(addr) => MemoryAddress(addr),
            Instruction::JumpOffset(addr) => MemoryAddress(addr).offset(machine.reg(0) as int),
            _ => if machine.skips(instruction, key) {
                machine.pc.offset(4)
            } else {
                machine.pc.offset(2)
            },
        }),
{
}

/// Storing `V0..=Vy` and loading them back from the same address leaves every register as
/// it was.
pub proof fn lemma_store_load(machine: Machine, vy: u8)
    requires
        machine.wf(),
        vy < 18,
        machine.i.cell() + vy + 1 <= 4096,
    ensures
        machine.store_regs(vy).load_regs(vy).registers == machine.registers,
{
}

/// Drawing a sprite that has a set pixel twice at the same place, the first time where
/// none of its pixels is set on the display: the first draw leaves the flag at 0, the
/// second sets it to 1 and restores the display.
///
/// The coordinates are read from registers other than `VF`, which the first draw writes.
pub proof fn lemma_draw_twice(machine: Machine, vx: u8, vy: u8, rows: u8)
    requires
        machine.wf(),
        vx < 18 && vx != 0xF,
        vy < 18 && vy != 0xF,
        machine.draw_fits(vx, vy, rows),
        forall|p: int|
            0 <= p < 2048 && spec_sprite_pixel(
                machine.sprite(rows),
                machine.reg(vx),
                machine.reg(vy),
                p,
            ) ==> !#[trigger] spec_pixel(machine.display, p),
        exists|i: int| 0 <= i < machine.sprite(rows).len() && #[trigger] machine.sprite(rows)[i] != 0,
    ensures
        machine.draw_sprite(vx, vy, rows).reg(0xF) == 0,
        machine.draw_sprite(vx, vy, rows).draw_sprite(vx, vy, rows).reg(0xF) == 1,
        machine.draw_sprite(vx, vy, rows).draw_sprite(vx, vy, rows).display == machine.display,
{
    let sprite = machine.sprite(rows);
    let x = machine.reg(vx);
    let y = machine.reg(vy);
    lemma_blit_collision(machine.display, sprite, x, y);
    lemma_blit_twice(machine.display, sprite, x, y);
}

/// What an instruction does depends on the random byte only where it is a `Random`, and on
/// the key only where it is a keyboard instruction.
pub proof fn lemma_execute_inputs(
    machine: Machine,
    instruction: Instruction,
    random: u8,
    key: Option<u8>,
    other_random: u8,
    other_key: Option<u8>,
)
    ensures
        !instruction.reads_random() && !instruction.reads_key() ==> machine.execute(
            instruction,
            random,
            key,
        ) == machine.execute(instruction, other_random, other_key),
        !instruction.reads_random() ==> machine.execute(instruction, random, key)
            == machine.execute(instruction, other_random, key),
        !instruction.reads_key() ==> machine.execute(instruction, random, key) == machine.execute(
            instruction,
            random,
            other_key,
        ),
{
}

/// Every instruction that is fetched can be executed.
pub proof fn lemma_fetch_accepts(machine: Machine)
    ensures
        machine.fetch() matches Ok(instruction) ==> machine.accepts(instruction),
{
}

} // verus!
