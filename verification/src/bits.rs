//! Small word-level helpers shared by the interpreter: masked-value bounds,
//! rotates, arithmetic shifts, sign extension and register-list counting.

use vstd::prelude::*;

verus! {

/// A masked value never exceeds the mask.
pub proof fn lemma_and_mask_le(x: u32, m: u32)
    ensures
        (x & m) <= m,
{
    assert((x & m) <= m) by (bit_vector);
}

/// A masked 16-bit value never exceeds the mask.
pub proof fn lemma_and_mask_le_u16(x: u16, m: u16)
    ensures
        (x & m) <= m,
{
    assert((x & m) <= m) by (bit_vector);
}

/// Rotate a word right by `n` places (meaningful for `n < 32`; `n == 0` is
/// the identity).
pub open spec fn s_rotr32(x: u32, n: u32) -> u32
    recommends
        n < 32,
{
    if n == 0 {
        x
    } else {
        (x >> n) | (x << ((32 - n) as u32))
    }
}

pub fn rotr32(x: u32, n: u32) -> (r: u32)
    requires
        n < 32,
    ensures
        r == s_rotr32(x, n),
{
    if n == 0 {
        x
    } else {
        (x >> n) | (x << (32 - n))
    }
}

/// Arithmetic shift right: shifts in copies of bit 31.
pub open spec fn s_asr32(x: u32, n: u32) -> u32
    recommends
        1 <= n < 32,
{
    if (x >> 31u32) == 1u32 {
        (x >> n) | (0xFFFF_FFFFu32 << ((32 - n) as u32))
    } else {
        x >> n
    }
}

pub fn asr32(x: u32, n: u32) -> (r: u32)
    requires
        1 <= n < 32,
    ensures
        r == s_asr32(x, n),
{
    proof {
        assert((x >> 31u32) == 1u32 || (x >> 31u32) == 0u32) by (bit_vector);
    }
    if (x >> 31) == 1 {
        (x >> n) | (0xFFFF_FFFFu32 << (32 - n))
    } else {
        x >> n
    }
}

/// Sign-extend the low 8 bits of a word.
pub open spec fn s_sext8(x: u32) -> u32 {
    if (x & 0x80) != 0 {
        (x & 0xFF) | 0xFFFF_FF00
    } else {
        x & 0xFF
    }
}

pub fn sext8(x: u32) -> (r: u32)
    ensures
        r == s_sext8(x),
{
    if (x & 0x80) != 0 {
        (x & 0xFF) | 0xFFFF_FF00
    } else {
        x & 0xFF
    }
}

/// Sign-extend the low 16 bits of a word.
pub open spec fn s_sext16(x: u32) -> u32 {
    if (x & 0x8000) != 0 {
        (x & 0xFFFF) | 0xFFFF_0000
    } else {
        x & 0xFFFF
    }
}

pub fn sext16(x: u32) -> (r: u32)
    ensures
        r == s_sext16(x),
{
    if (x & 0x8000) != 0 {
        (x & 0xFFFF) | 0xFFFF_0000
    } else {
        x & 0xFFFF
    }
}

/// The ASCII character for one hexadecimal digit (upper case).
pub open spec fn s_hex_digit(d: u32) -> u8 {
    if d < 10 {
        (0x30 + d) as u8
    } else if d < 16 {
        (0x41 + (d - 10)) as u8
    } else {
        0x30u8
    }
}

pub fn hex_digit(d: u32) -> (r: u8)
    ensures
        r == s_hex_digit(d),
{
    if d < 10 {
        (0x30 + d) as u8
    } else if d < 16 {
        (0x41 + (d - 10)) as u8
    } else {
        0x30
    }
}

/// A word rendered as eight hexadecimal digits, most significant first.
pub open spec fn s_hex8(x: u32) -> Seq<u8> {
    Seq::new(8, |i: int| s_hex_digit((x >> (((7 - i) * 4) as u32)) & 0xF))
}

pub fn hex8(x: u32) -> (r: Vec<u8>)
    ensures
        r@ == s_hex8(x),
{
    let mut r: Vec<u8> = Vec::new();
    let mut i: u32 = 0;
    while i < 8
        invariant
            i <= 8,
            r@.len() == i,
            forall|j: int|
                0 <= j < i ==> r@[j] == s_hex_digit((x >> (((7 - j) * 4) as u32)) & 0xF),
        decreases 8 - i,
    {
        let d = (x >> ((7 - i) * 4)) & 0xF;
        r.push(hex_digit(d));
        i = i + 1;
    }
    proof {
        assert(r@ =~= s_hex8(x));
    }
    r
}

/// Sign-extend a 32-bit word to 64 bits.
pub open spec fn s_sext64(x: u32) -> u64 {
    if (x >> 31u32) == 1u32 {
        (x as u64) | 0xFFFF_FFFF_0000_0000u64
    } else {
        x as u64
    }
}

pub fn sext64(x: u32) -> (r: u64)
    ensures
        r == s_sext64(x),
{
    proof {
        assert((x >> 31u32) == 1u32 || (x >> 31u32) == 0u32) by (bit_vector);
    }
    if (x >> 31) == 1 {
        (x as u64) | 0xFFFF_FFFF_0000_0000
    } else {
        x as u64
    }
}

/// How many of the low `n` bits of `list` are set.
pub open spec fn s_bits_set(list: u32, n: nat) -> nat
    decreases n,
{
    if n == 0 {
        0
    } else {
        s_bits_set(list, (n - 1) as nat) + (if (list >> ((n - 1) as u32)) & 1 == 1 {
            1nat
        } else {
            0nat
        })
    }
}

proof fn lemma_bits_set_le(list: u32, n: nat)
    ensures
        s_bits_set(list, n) <= n,
    decreases n,
{
    if n > 0 {
        lemma_bits_set_le(list, (n - 1) as nat);
    }
}

/// Count the set bits among the low 16 bits of a register list.
pub fn count_bits16(list: u32) -> (c: u32)
    ensures
        c == s_bits_set(list, 16),
        c <= 16,
{
    let mut c: u32 = 0;
    let mut i: u32 = 0;
    while i < 16
        invariant
            i <= 16,
            c == s_bits_set(list, i as nat),
            c <= i,
        decreases 16 - i,
    {
        if (list >> i) & 1 == 1 {
            c = c + 1;
        }
        i = i + 1;
    }
    proof {
        lemma_bits_set_le(list, 16);
    }
    c
}

} // verus!
