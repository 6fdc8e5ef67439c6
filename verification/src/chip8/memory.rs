use vstd::prelude::*;
use std::ops::{Add, AddAssign};

verus! {

/// A 16-bit address. Only its low twelve bits select a memory cell.
#[derive(Debug, Copy, Clone, PartialEq, Eq, Structural)]
pub struct MemoryAddress(pub u16);

impl MemoryAddress {
    /// Address 0, where the digit glyphs start.
    pub fn zero() -> (addr: Self)
        ensures
            addr == MemoryAddress(0),
    {
        MemoryAddress(0)
    }

    /// Address 0x200, where programs are loaded and execution starts.
    pub fn program_start() -> (addr: Self)
        ensures
            addr == MemoryAddress(0x200),
    {
        MemoryAddress(0x200)
    }

    /// The memory cell that this address selects: the address modulo 4096.
    pub open spec fn cell(self) -> int {
        self.0 as int % 4096
    }

    /// The address `n` further on, wrapping at 16 bits.
    pub open spec fn offset(self, n: int) -> MemoryAddress {
        MemoryAddress(((self.0 as int + n) % 0x1_0000) as u16)
    }

    /// Moves the address on by one instruction, two bytes, wrapping at 16 bits.
    pub fn next_instruction(&mut self)
        ensures
            *final(self) == old(self).offset(2),
    {
        self.0 = self.0.wrapping_add(2);
    }
}

impl vstd::std_specs::ops::AddSpecImpl<u8> for MemoryAddress {
    open spec fn obeys_add_spec() -> bool {
        true
    }

    open spec fn add_req(self, rhs: u8) -> bool {
        true
    }

    open spec fn add_spec(self, rhs: u8) -> MemoryAddress {
        self.offset(rhs as int)
    }
}

impl Add<u8> for MemoryAddress {
    type Output = Self;

    /// The address `other` further on, wrapping at 16 bits.
    fn add(self, other: u8) -> (sum: Self) {
        Self(self.0.wrapping_add(other as u16))
    }
}

/// The cells `start .. start + count` of `memory`, cut off at its end.
pub open spec fn spec_read(memory: Seq<u8>, start: int, count: int) -> Seq<u8> {
    memory.subrange(
        start,
        if start + count > memory.len() {
            memory.len() as int
        } else {
            start + count
        },
    )
}

/// 4096 byte cells. An address selects a cell by its low twelve bits.
#[derive(Debug)]
pub struct Memory([u8; 4096]);

impl View for Memory {
    type V = Seq<u8>;

    closed spec fn view(&self) -> Seq<u8> {
        self.0@
    }
}

impl Memory {
    /// Every memory has 4096 cells.
    pub proof fn lemma_len(&self)
        ensures
            self@.len() == 4096,
    {
    }

    /// A memory with every cell at 0.
    pub fn new() -> (memory: Self)
        ensures
            memory@ == Seq::new(4096, |i: int| 0u8),
    {
        let m = Self([0; 4096]);
        m
    }

    /// The `num_bytes` cells from `addr` on, or as many as are left before the end of
    /// memory.
    pub fn read_bytes(&self, addr: MemoryAddress, num_bytes: usize) -> (bytes: &[u8])
        ensures
            bytes@ == spec_read(self@, addr.cell(), num_bytes as int),
    {
        let raw: u16 = addr.0;
        let start: usize = (raw & 0x0FFF) as usize;
        assert(raw & 0x0FFF == raw % 4096) by (bit_vector);
        let end: usize = if num_bytes > 4096 - start { 4096 } else { start + num_bytes };
        &self.0[start..end]
    }

    /// Copies `data` into the cells from `addr` on. The data must end within memory.
    pub fn write_bytes(&mut self, addr: MemoryAddress, data: &[u8])
        requires
            addr.cell() + data@.len() <= 4096,
        ensures
            final(self)@ == spec_write(old(self)@, addr.cell(), data@),
    {
        let raw: u16 = addr.0;
        let start: usize = (raw & 0x0FFF) as usize;
        assert(raw & 0x0FFF == raw % 4096) by (bit_vector);
        let mut k: usize = 0;
        while k < data.len()
            invariant
                start == addr.cell(),
                start + data@.len() <= 4096,
                k <= data@.len(),
                self@ == spec_write(old(self)@, start as int, data@.subrange(0, k as int)),
            decreases data@.len() - k,
        {
            self.0[start + k] = data[k];
            k += 1;
        }
    }
}

/// `memory` with `data` laid over it from cell `start` on.
pub open spec fn spec_write(memory: Seq<u8>, start: int, data: Seq<u8>) -> Seq<u8> {
    Seq::new(
        memory.len(),
        |i: int| if start <= i < start + data.len() { data[i - start] } else { memory[i] },
    )
}

impl AddAssign<u8> for MemoryAddress {
    /// Moves the address on by `other`, wrapping at 16 bits.
    fn add_assign(&mut self, other: u8)
        ensures
            *final(self) == old(self).offset(other as int),
    {
        self.0 = self.0.wrapping_add(other as u16);
    }
}

} // verus!
