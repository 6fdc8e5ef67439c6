use vstd::prelude::*;

verus! {

/// The upper four bits of `value`, as a number in `0..16`.
pub open spec fn spec_high_nibble(value: u8) -> u8 {
    value / 16
}

/// The lower four bits of `value`, as a number in `0..16`.
pub open spec fn spec_low_nibble(value: u8) -> u8 {
    value % 16
}

/// The upper four bits of `value`.
pub fn high_nibble(value: u8) -> (nibble: u8)
    ensures
        nibble == spec_high_nibble(value),
        nibble < 16,
{
    assert((value & 0xF0) >> 4 == value / 16) by (bit_vector);
    (value & 0xF0) >> 4
}

/// The lower four bits of `value`.
pub fn low_nibble(value: u8) -> (nibble: u8)
    ensures
        nibble == spec_low_nibble(value),
        nibble < 16,
{
    assert(value & 0x0F == value % 16) by (bit_vector);
    value & 0x0F
}

/// Overwrites `target` with the bytes of `source`, which has the same length.
pub fn copy_into(target: &mut [u8], source: &[u8])
    requires
        old(target)@.len() == source@.len(),
    ensures
        final(target)@ == source@,
{
    let mut k: usize = 0;
    while k < source.len()
        invariant
            k <= source@.len(),
            target@.len() == source@.len(),
            target@.take(k as int) == source@.take(k as int),
        decreases source@.len() - k,
    {
        target[k] = source[k];
        k += 1;
    }
    assert(source@ =~= source@.take(k as int));
}

} // verus!
