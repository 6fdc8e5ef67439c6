use vstd::prelude::*;
use std::ops::Index;

verus! {

/// The register file: `V0`..`VF`, then the delay timer and the sound timer.
///
/// `VF` doubles as the flag that the arithmetic, shift and drawing operations write.
#[derive(Debug, Copy, Clone, PartialEq)]
pub struct Registers([u8; 18]);

impl View for Registers {
    type V = Seq<u8>;

    closed spec fn view(&self) -> Seq<u8> {
        self.0@
    }
}

/// 1 where `condition` holds, else 0: the value that a flag-setting operation writes to `VF`.
pub open spec fn spec_flag(condition: bool) -> u8 {
    if condition {
        1
    } else {
        0
    }
}

/// Register file after `vx += vy`: `VF` gets the carry, then `vx` the sum modulo 256.
pub open spec fn spec_add_register(regs: Seq<u8>, vx: int, vy: int) -> Seq<u8> {
    let sum = regs[vx] + regs[vy];
    regs.update(0xF, spec_flag(sum > 255)).update(vx, (sum % 256) as u8)
}

/// Register file after `vx -= vy`: `VF` gets 1 where `vx > vy`, then `vx` the difference
/// modulo 256, taken of the registers as they stand once `VF` is written.
pub open spec fn spec_sub_register(regs: Seq<u8>, vx: int, vy: int) -> Seq<u8> {
    let flagged = regs.update(0xF, spec_flag(regs[vx] > regs[vy]));
    flagged.update(vx, ((flagged[vx] - flagged[vy]) % 256) as u8)
}

/// Register file after `vx = vy - vx`: `VF` gets 1 where `vy > vx`, then `vx` the difference
/// modulo 256, taken of the registers as they stand once `VF` is written.
pub open spec fn spec_subn_register(regs: Seq<u8>, vx: int, vy: int) -> Seq<u8> {
    let flagged = regs.update(0xF, spec_flag(regs[vy] > regs[vx]));
    flagged.update(vx, ((flagged[vy] - flagged[vx]) % 256) as u8)
}

/// Register file after `vx >>= 1`: `VF` gets the bit shifted out, then `vx` is halved.
pub open spec fn spec_shift_right(regs: Seq<u8>, vx: int) -> Seq<u8> {
    let flagged = regs.update(0xF, regs[vx] % 2);
    flagged.update(vx, flagged[vx] / 2)
}

/// Register file after `vx <<= 1`: `VF` gets the bit shifted out, then `vx` is doubled
/// modulo 256.
pub open spec fn spec_shift_left(regs: Seq<u8>, vx: int) -> Seq<u8> {
    let flagged = regs.update(0xF, regs[vx] / 128);
    flagged.update(vx, ((flagged[vx] * 2) % 256) as u8)
}

impl Registers {
    pub const V0: u8 = 0x0;

    pub const V1: u8 = 0x1;

    pub const V2: u8 = 0x2;

    pub const V3: u8 = 0x3;

    pub const V4: u8 = 0x4;

    pub const V5: u8 = 0x5;

    pub const V6: u8 = 0x6;

    pub const V7: u8 = 0x7;

    pub const V8: u8 = 0x8;

    pub const V9: u8 = 0x9;

    pub const VA: u8 = 0xA;

    pub const VB: u8 = 0xB;

    pub const VC: u8 = 0xC;

    pub const VD: u8 = 0xD;

    pub const VE: u8 = 0xE;

    pub const VF: u8 = 0xF;

    pub const DT: u8 = 0x10;

    pub const ST: u8 = 0x11;

    /// The value in register `r`, so that `regs[r]` can be written in contracts.
    pub open spec fn spec_index(&self, r: u8) -> u8 {
        self@[r as int]
    }

    /// Every register file has eighteen cells.
    pub proof fn lemma_len(&self)
        ensures
            self@.len() == 18,
    {
    }

    /// A register file with every register at 0.
    pub fn new() -> (regs: Self)
        ensures
            regs@ == Seq::new(18, |i: int| 0u8),
    {
        let regs = Self([0;18]);
        regs
    }

    /// The registers `vx..=vy`, in order.
    pub fn get_slice(&self, vx: u8, vy: u8) -> (cells: &[u8])
        requires
            vx <= vy + 1,
            vy < 18,
        ensures
            cells@ == self@.subrange(vx as int, vy + 1),
    {
        &self.0[(vx as usize)..(vy as usize + 1)]
    }

    /// The registers `vx..=vy`, in order, for writing.
    pub fn get_slice_mut(&mut self, vx: u8, vy: u8) -> (cells: &mut [u8])
        requires
            vx <= vy + 1,
            vy < 18,
        ensures
            cells@ == old(self)@.subrange(vx as int, vy + 1),
            final(self)@ == old(self)@.subrange(0, vx as int) + final(cells)@ + old(self)@.subrange(
                vy + 1,
                18,
            ),
    {
        let all: &mut [u8] = &mut self.0;
        let (_, tail) = all.split_at_mut(vx as usize);
        let (cells, _) = tail.split_at_mut(vy as usize + 1 - vx as usize);
        cells
    }

    /// Whether `vx` holds `value`.
    pub fn cmp_scalar(&self, vx: u8, value: u8) -> (same: bool)
        requires
            vx < 18,
        ensures
            same == (self[vx] == value),
    {
        self[vx] == value
    }

    /// Whether `vx` and `vy` hold the same value.
    pub fn cmp_register(&self, vx: u8, vy: u8) -> (same: bool)
        requires
            vx < 18,
            vy < 18,
        ensures
            same == (self[vx] == self[vy]),
    {
        self[vx] == self[vy]
    }

    /// `vx = value`.
    pub fn load_scalar(&mut self, vx: u8, value: u8)
        requires
            vx < 18,
        ensures
            final(self)@ == old(self)@.update(vx as int, value),
    {
        self.0[vx as usize] = value;
    }

    /// `vx = vy`.
    pub fn load_register(&mut self, vx: u8, vy: u8)
        requires
            vx < 18,
            vy < 18,
        ensures
            final(self)@ == old(self)@.update(vx as int, old(self)[vy]),
    {
        self.0[vx as usize] = self.0[vy as usize];
    }

    /// `VF` = lowest bit of `vx`, then `vx >>= 1`.
    pub fn shift_right(&mut self, vx: u8)
        requires
            vx < 18,
        ensures
            final(self)@ == spec_shift_right(old(self)@, vx as int),
            vx != Self::VF ==> final(self)[Self::VF] == old(self)[vx] % 2,
            vx != Self::VF ==> final(self)[vx] == old(self)[vx] / 2,
    {
        let low: u8 = self.0[vx as usize];
        assert(low & 1 == low % 2) by (bit_vector);
        self.0[0xF] = if low & 1 == 1 { 1 } else { 0 };
        let value: u8 = self.0[vx as usize];
        assert(value >> 1u32 == value / 2) by (bit_vector);
        self.0[vx as usize] = value.wrapping_shr(1);
    }

    /// `VF` = highest bit of `vx`, then `vx <<= 1`.
    pub fn shift_left(&mut self, vx: u8)
        requires
            vx < 18,
        ensures
            final(self)@ == spec_shift_left(old(self)@, vx as int),
            vx != Self::VF ==> final(self)[Self::VF] == old(self)[vx] / 128,
            vx != Self::VF ==> final(self)[vx] == (old(self)[vx] * 2) % 256,
    {
        let high: u8 = self.0[vx as usize];
        assert((high & 0x80 == 0x80) == (high / 128 == 1)) by (bit_vector);
        self.0[0xF] = if high & 0x80 == 0x80 { 1 } else { 0 };
        let value: u8 = self.0[vx as usize];
        assert(value << 1u32 == (value * 2) % 256) by (bit_vector);
        self.0[vx as usize] = value.wrapping_shl(1);
    }

    /// `vx += value` modulo 256. No flag is set.
    pub fn add_scalar(&mut self, vx: u8, value: u8)
        requires
            vx < 18,
        ensures
            final(self)@ == old(self)@.update(vx as int, ((old(self)[vx] + value) % 256) as u8),
    {
        self.0[vx as usize] = self.0[vx as usize].wrapping_add(value);
    }

    /// `vx += vy` modulo 256, with `VF` = 1 where the sum passed 255, else 0. The sum is
    /// written after the flag, so it is what stays where `vx` is `VF`.
    pub fn add_register(&mut self, vx: u8, vy: u8)
        requires
            vx < 18,
            vy < 18,
        ensures
            final(self)@ == spec_add_register(old(self)@, vx as int, vy as int),
            final(self)[vx] == (old(self)[vx] + old(self)[vy]) % 256,
            vx != Self::VF ==> (final(self)[Self::VF] == 1 <==> old(self)[vx] + old(self)[vy] >= 256),
            vx != Self::VF ==> final(self)[Self::VF] <= 1,
    {
        let a: u8 = self.0[vx as usize];
        let b: u8 = self.0[vy as usize];
        let result: u8 = a.wrapping_add(b);
        let overflow: bool = result < a;
        self.0[0xF] = if overflow { 1 } else { 0 };
        self.0[vx as usize] = result;
    }

    /// `VF` = 1 where `vx > vy`, else 0; then `vx -= vy` modulo 256. The flag is no borrow:
    /// it is 0 where the two are equal. Where `vx` or `vy` is `VF`, the difference is taken
    /// of the flag just written.
    pub fn sub_register(&mut self, vx: u8, vy: u8)
        requires
            vx < 18,
            vy < 18,
        ensures
            final(self)@ == spec_sub_register(old(self)@, vx as int, vy as int),
            vx != Self::VF && vy != Self::VF ==> {
                &&& final(self)[vx] == (old(self)[vx] - old(self)[vy]) % 256
                &&& final(self)[Self::VF] <= 1
                &&& final(self)[Self::VF] == 1 <==> old(self)[vx] > old(self)[vy]
            },
    {
        self.0[0xF] = if self.0[vx as usize] > self.0[vy as usize] { 1 } else { 0 };
        self.0[vx as usize] = self.0[vx as usize].wrapping_sub(self.0[vy as usize]);
    }

    /// `VF` = 1 where `vy > vx`, else 0; then `vx = vy - vx` modulo 256. Where `vx` or `vy`
    /// is `VF`, the difference is taken of the flag just written.
    pub fn subn_register(&mut self, vx: u8, vy: u8)
        requires
            vx < 18,
            vy < 18,
        ensures
            final(self)@ == spec_subn_register(old(self)@, vx as int, vy as int),
            vx != Self::VF && vy != Self::VF ==> {
                &&& final(self)[vx] == (old(self)[vy] - old(self)[vx]) % 256
                &&& final(self)[Self::VF] <= 1
                &&& final(self)[Self::VF] == 1 <==> old(self)[vy] > old(self)[vx]
            },
    {
        self.0[0xF] = if self.0[vy as usize] > self.0[vx as usize] { 1 } else { 0 };
        self.0[vx as usize] = self.0[vy as usize].wrapping_sub(self.0[vx as usize]);
    }

    /// `vx |= vy`.
    pub fn or_register(&mut self, vx: u8, vy: u8)
        requires
            vx < 18,
            vy < 18,
        ensures
            final(self)@ == old(self)@.update(vx as int, old(self)[vx] | old(self)[vy]),
    {
        self.0[vx as usize] = self.0[vx as usize] | self.0[vy as usize];
    }

    /// `vx &= vy`.
    pub fn and_register(&mut self, vx: u8, vy: u8)
        requires
            vx < 18,
            vy < 18,
        ensures
            final(self)@ == old(self)@.update(vx as int, old(self)[vx] & old(self)[vy]),
    {
        self.0[vx as usize] = self.0[vx as usize] & self.0[vy as usize];
    }

    /// `vx ^= vy`.
    pub fn xor_register(&mut self, vx: u8, vy: u8)
        requires
            vx < 18,
            vy < 18,
        ensures
            final(self)@ == old(self)@.update(vx as int, old(self)[vx] ^ old(self)[vy]),
    {
        self.0[vx as usize] = self.0[vx as usize] ^ self.0[vy as usize];
    }
}

impl vstd::std_specs::core::IndexSpecImpl<u8> for Registers {
    open spec fn index_req(&self, index: &u8) -> bool {
        *index < 18
    }
}

impl Index<u8> for Registers {
    type Output = u8;

    fn index(&self, index: u8) -> (value: &u8)
        ensures
            *value == self.spec_index(index),
    {
        &self.0[index as usize]
    }
}

} // verus!
