use vstd::prelude::*;

use crate::flags::{bit_value, FlagsRegister};

verus! {

/// A byte read as a two's complement signed offset.
pub open spec fn signed_byte(b: u8) -> int {
    if b < 128 {
        b as int
    } else {
        b as int - 256
    }
}

/// `x + d` on the sixteen-bit address space, wrapping around.
pub open spec fn addr_add(x: u16, d: int) -> u16 {
    ((x as int + d) % 0x10000) as u16
}

/// `addr_add` is `+` when the sum is an address, and otherwise wraps by 0x10000.
pub proof fn lemma_addr_add(x: u16, d: int)
    requires
        -0x10000 <= x + d < 0x20000,
    ensures
        0 <= x + d < 0x10000 ==> addr_add(x, d) == x + d,
        x + d >= 0x10000 ==> addr_add(x, d) == x + d - 0x10000,
        x + d < 0 ==> addr_add(x, d) == x + d + 0x10000,
{
}

/// Eight-bit addition of `v` and the carry `cin` to `a`: the result and the flags.
#[verifier::opaque]
pub open spec fn add8(a: u8, v: u8, cin: bool) -> (u8, FlagsRegister) {
    let sum = a as int + v as int + bit_value(cin);
    let r = (sum % 256) as u8;
    (
        r,
        FlagsRegister {
            zero: r == 0,
            subtract: false,
            half_carry: a as int % 16 + v as int % 16 + bit_value(cin) > 15,
            carry: sum > 255,
        },
    )
}

/// Eight-bit subtraction of `v` and the borrow `cin` from `a`.
#[verifier::opaque]
pub open spec fn sub8(a: u8, v: u8, cin: bool) -> (u8, FlagsRegister) {
    let diff = a as int - v as int - bit_value(cin);
    let r = (diff % 256) as u8;
    (
        r,
        FlagsRegister {
            zero: r == 0,
            subtract: true,
            half_carry: (a as int % 16) < v as int % 16 + bit_value(cin),
            carry: (a as int) < v as int + bit_value(cin),
        },
    )
}

/// Flags of a logic operation with result `r`: Z from the result, H as given,
/// N and C clear.
pub open spec fn logic_flags(r: u8, half_carry: bool) -> FlagsRegister {
    FlagsRegister { zero: r == 0, subtract: false, half_carry, carry: false }
}

/// Increment of a byte; the carry flag is kept.
#[verifier::opaque]
pub open spec fn inc8(v: u8, f: FlagsRegister) -> (u8, FlagsRegister) {
    let r = ((v + 1) % 256) as u8;
    (r, FlagsRegister { zero: r == 0, subtract: false, half_carry: v % 16 == 15, carry: f.carry })
}

/// Decrement of a byte; the carry flag is kept.
#[verifier::opaque]
pub open spec fn dec8(v: u8, f: FlagsRegister) -> (u8, FlagsRegister) {
    let r = ((v - 1 + 256) % 256) as u8;
    (r, FlagsRegister { zero: r == 0, subtract: true, half_carry: v % 16 == 0, carry: f.carry })
}

/// Sixteen-bit addition to HL; the zero flag is kept, H is the carry out of bit 11.
#[verifier::opaque]
pub open spec fn add16(hl: u16, v: u16, f: FlagsRegister) -> (u16, FlagsRegister) {
    let sum = hl as int + v as int;
    (
        (sum % 0x10000) as u16,
        FlagsRegister {
            zero: f.zero,
            subtract: false,
            half_carry: hl as int % 4096 + v as int % 4096 > 4095,
            carry: sum > 0xFFFF,
        },
    )
}

/// Flags of adding a signed byte to SP: carries out of bits 3 and 7 of the
/// unsigned low byte, Z and N clear.
pub open spec fn sp_offset_flags(sp: u16, off: u8) -> FlagsRegister {
    FlagsRegister {
        zero: false,
        subtract: false,
        half_carry: sp as int % 16 + off as int % 16 > 15,
        carry: sp as int % 256 + off as int > 255,
    }
}

/// Rotation left: bit 7 goes to bit 0 and out as the carry.
pub open spec fn rotate_left(v: u8) -> (u8, bool) {
    (((v as int * 2) % 256 + v as int / 128) as u8, v >= 128)
}

/// Rotation right: bit 0 goes to bit 7 and out as the carry.
pub open spec fn rotate_right(v: u8) -> (u8, bool) {
    ((v as int / 2 + (v as int % 2) * 128) as u8, v % 2 == 1)
}

/// Rotation left through the carry: the old carry enters at bit 0.
pub open spec fn rotate_left_carry(v: u8, c: bool) -> (u8, bool) {
    (((v as int * 2) % 256 + bit_value(c)) as u8, v >= 128)
}

/// Rotation right through the carry: the old carry enters at bit 7.
pub open spec fn rotate_right_carry(v: u8, c: bool) -> (u8, bool) {
    ((v as int / 2 + bit_value(c) * 128) as u8, v % 2 == 1)
}

/// Arithmetic shift left: 0 enters at bit 0.
pub open spec fn shift_left(v: u8) -> (u8, bool) {
    (((v as int * 2) % 256) as u8, v >= 128)
}

/// Arithmetic shift right: bit 7 is kept.
pub open spec fn shift_right_arithmetic(v: u8) -> (u8, bool) {
    ((v as int / 2 + (v as int / 128) * 128) as u8, v % 2 == 1)
}

/// Logical shift right: 0 enters at bit 7.
pub open spec fn shift_right_logical(v: u8) -> (u8, bool) {
    ((v / 2) as u8, v % 2 == 1)
}

/// The two nibbles of a byte exchanged.
pub open spec fn swap_nibbles(v: u8) -> u8 {
    ((v as int % 16) * 16 + v as int / 16) as u8
}

/// The flags of a prefixed rotation or shift with result `r` and carry `c`.
pub open spec fn shift_flags(r: u8, c: bool) -> FlagsRegister {
    FlagsRegister { zero: r == 0, subtract: false, half_carry: false, carry: c }
}

/// The flags of a rotation of A (RLCA, RRCA, RLA, RRA): Z is always clear.
pub open spec fn rotate_a_flags(c: bool) -> FlagsRegister {
    FlagsRegister { zero: false, subtract: false, half_carry: false, carry: c }
}

/// The correction that DAA adds to (or, after a subtraction, takes from) A.
pub open spec fn daa_adjust(a: u8, f: FlagsRegister) -> int {
    (if f.carry || (!f.subtract && a > 0x99) {
        0x60int
    } else {
        0
    }) + (if f.half_carry || (!f.subtract && a % 16 > 9) {
        0x06int
    } else {
        0
    })
}

/// Decimal adjustment of A after a BCD addition or subtraction.
pub open spec fn daa(a: u8, f: FlagsRegister) -> (u8, FlagsRegister) {
    let adj = daa_adjust(a, f);
    let r = if f.subtract {
        ((a - adj + 256) % 256) as u8
    } else {
        ((a + adj) % 256) as u8
    };
    (r, FlagsRegister { zero: r == 0, subtract: f.subtract, half_carry: false, carry: adj >= 0x60 })
}

/// Rotating left and then right, with or without the carry, restores the byte.
pub proof fn lemma_rotations_invert(v: u8, c: bool)
    ensures
        rotate_right(rotate_left(v).0).0 == v,
        rotate_left(rotate_right(v).0).0 == v,
        rotate_right_carry(rotate_left_carry(v, c).0, rotate_left_carry(v, c).1) == (v, c),
        rotate_left_carry(rotate_right_carry(v, c).0, rotate_right_carry(v, c).1) == (v, c),
{
}

/// Exchanging the nibbles twice restores the byte.
pub proof fn lemma_swap_involution(v: u8)
    ensures
        swap_nibbles(swap_nibbles(v)) == v,
{
}

/// Subtraction undoes addition of the same byte, and the carry of one is the
/// borrow of the other.
pub proof fn lemma_add_sub_inverse(a: u8, v: u8)
    ensures
        sub8(add8(a, v, false).0, v, false).0 == a,
        add8(a, v, false).1.carry == sub8(add8(a, v, false).0, v, false).1.carry,
{
    reveal(add8);
    reveal(sub8);
}

pub(crate) proof fn lemma_byte_bits(x: u8)
    by (bit_vector)
    ensures
        x & 0xFu8 == x % 16,
        x & 0x0Fu8 == x % 16,
        (x & 0x80u8) >> 7u8 == x / 128,
        (x & 0b1000_0000u8) >> 7u8 == x / 128,
        x & 0x01u8 == x % 2,
        x & 0b0000_0001u8 == x % 2,
        !x == 255 - x,
        0xFF00u16 | (x as u16) == 0xFF00u16 + x as u16,
{
}

pub(crate) proof fn lemma_byte_shifts(x: u8)
    by (bit_vector)
    ensures
        (x & 0x80u8) >> 7u8 == x / 128,
        x & 0x01u8 == x % 2,
        x >> 1u8 == x / 2,
        (x << 1u8) == ((x * 2) % 256) as u8,
        (x << 4u8) | (x >> 4u8) == (x % 16) * 16 + x / 16,
        (x >> 1u8) | (x & 0x80u8) == x / 2 + (x / 128) * 128,
{
}

pub(crate) proof fn lemma_sign_extend(x: u8)
    by (bit_vector)
    ensures
        x < 128 ==> ((x as i8) as i16) as u16 == x as u16,
        x >= 128 ==> ((x as i8) as i16) as u16 == x as u16 + 0xFF00u16,
        x < 128 ==> (x as i8) as u16 == x as u16,
        x >= 128 ==> (x as i8) as u16 == x as u16 + 0xFF00u16,
{
}

pub(crate) proof fn lemma_byte_carry_bits(x: u8, c: u8)
    by (bit_vector)
    requires
        c <= 1,
    ensures
        (x << 1u8) | c == ((x * 2) % 256 + c) as u8,
{
}

pub(crate) proof fn lemma_byte_carry_high(x: u8, c: u8)
    by (bit_vector)
    requires
        c <= 1,
    ensures
        (x >> 1u8) | (c << 7u8) == (x / 2 + c * 128) as u8,
{
}

pub(crate) proof fn lemma_word_bits(w: u16)
    by (bit_vector)
    ensures
        w & 0xFFFu16 == w % 4096,
        w & 0x0Fu16 == w % 16,
        w & 0xFFu16 == w % 256,
{
}

pub(crate) proof fn lemma_daa_bits(adj: u8)
    by (bit_vector)
    requires
        adj == 0 || adj == 0x06 || adj == 0x60 || adj == 0x66,
    ensures
        adj | 0x06u8 == if adj >= 0x60 { 0x66u8 } else { 0x06u8 },
        adj | 0x60u8 == if adj % 16 == 6 { 0x66u8 } else { 0x60u8 },
{
}

} // verus!
