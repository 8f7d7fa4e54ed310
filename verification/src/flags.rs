use vstd::prelude::*;

verus! {

/// The flag register F of the CPU. Only its upper nibble holds state:
/// bit 7 is Z, bit 6 is N, bit 5 is H and bit 4 is C.
#[derive(Clone, Copy, Debug, PartialEq, Eq, Structural)]
pub struct FlagsRegister {
    pub zero: bool,
    pub subtract: bool,
    pub half_carry: bool,
    pub carry: bool,
}

pub const ZERO_FLAG_POSITION: u8 = 7;

pub const SUBTRACT_FLAG_POSITION: u8 = 6;

pub const HALF_CARRY_FLAG_POSITION: u8 = 5;

pub const CARRY_FLAG_POSITION: u8 = 4;

/// 1 for a set flag, 0 for a clear one.
pub open spec fn bit_value(b: bool) -> int {
    if b {
        1
    } else {
        0
    }
}

/// The byte that a flag register is stored as: Z, N, H, C weigh 128, 64, 32, 16.
pub open spec fn flags_to_byte(f: FlagsRegister) -> u8 {
    (128 * bit_value(f.zero) + 64 * bit_value(f.subtract) + 32 * bit_value(f.half_carry) + 16
        * bit_value(f.carry)) as u8
}

/// The flag register that a byte is read back as: the upper nibble, bit by bit.
pub open spec fn byte_to_flags(byte: u8) -> FlagsRegister {
    FlagsRegister {
        zero: (byte / 128) % 2 == 1,
        subtract: (byte / 64) % 2 == 1,
        half_carry: (byte / 32) % 2 == 1,
        carry: (byte / 16) % 2 == 1,
    }
}

proof fn lemma_pack_bits(z: u8, s: u8, h: u8, c: u8)
    by (bit_vector)
    requires
        z <= 1,
        s <= 1,
        h <= 1,
        c <= 1,
    ensures
        (z << 7u8 | s << 6u8 | h << 5u8 | c << 4u8) == 128 * z + 64 * s + 32 * h + 16 * c,
{
}

proof fn lemma_unpack_bits(b: u8)
    by (bit_vector)
    ensures
        (((b >> 7u8) & 1u8) != 0) == ((b / 128) % 2 == 1),
        (((b >> 6u8) & 1u8) != 0) == ((b / 64) % 2 == 1),
        (((b >> 5u8) & 1u8) != 0) == ((b / 32) % 2 == 1),
        (((b >> 4u8) & 1u8) != 0) == ((b / 16) % 2 == 1),
{
}

impl std::convert::From<FlagsRegister> for u8 {
    fn from(flag: FlagsRegister) -> (r: u8) {
        let z: u8 = if flag.zero { 1 } else { 0 };
        let s: u8 = if flag.subtract { 1 } else { 0 };
        let h: u8 = if flag.half_carry { 1 } else { 0 };
        let c: u8 = if flag.carry { 1 } else { 0 };
        proof {
            lemma_pack_bits(z, s, h, c);
        }
        z << ZERO_FLAG_POSITION | s << SUBTRACT_FLAG_POSITION | h << HALF_CARRY_FLAG_POSITION | c
            << CARRY_FLAG_POSITION
    }
}

impl vstd::std_specs::convert::FromSpecImpl<FlagsRegister> for u8 {
    open spec fn obeys_from_spec() -> bool {
        true
    }

    open spec fn from_spec(v: FlagsRegister) -> u8 {
        flags_to_byte(v)
    }
}

impl std::convert::From<u8> for FlagsRegister {
    fn from(byte: u8) -> (r: FlagsRegister) {
        proof {
            lemma_unpack_bits(byte);
        }
        let zero = ((byte >> ZERO_FLAG_POSITION) & 0b1) != 0;
        let subtract = ((byte >> SUBTRACT_FLAG_POSITION) & 0b1) != 0;
        let half_carry = ((byte >> HALF_CARRY_FLAG_POSITION) & 0b1) != 0;
        let carry = ((byte >> CARRY_FLAG_POSITION) & 0b1) != 0;
        FlagsRegister { zero, subtract, half_carry, carry }
    }
}

impl vstd::std_specs::convert::FromSpecImpl<u8> for FlagsRegister {
    open spec fn obeys_from_spec() -> bool {
        true
    }

    open spec fn from_spec(v: u8) -> FlagsRegister {
        byte_to_flags(v)
    }
}

/// Storing a flag register as a byte and reading the byte back gives the same flags.
pub proof fn lemma_flags_round_trip(f: FlagsRegister)
    ensures
        byte_to_flags(flags_to_byte(f)) == f,
{
}

/// Reading a byte as flags and storing them again keeps the upper nibble of the
/// byte and clears the lower one.
pub proof fn lemma_byte_round_trip(b: u8)
    ensures
        flags_to_byte(byte_to_flags(b)) == b - b % 16,
{
}

} // verus!
