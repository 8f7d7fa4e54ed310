use gameboy::flags::FlagsRegister;
use gameboy::registers::Registers;

fn flags(zero: bool, subtract: bool, half_carry: bool, carry: bool) -> FlagsRegister {
    FlagsRegister { zero, subtract, half_carry, carry }
}

#[test]
fn flags_to_byte_uses_upper_nibble() {
    assert_eq!(u8::from(flags(true, false, false, false)), 0b1000_0000);
    assert_eq!(u8::from(flags(false, true, false, false)), 0b0100_0000);
    assert_eq!(u8::from(flags(false, false, true, false)), 0b0010_0000);
    assert_eq!(u8::from(flags(false, false, false, true)), 0b0001_0000);
    assert_eq!(u8::from(flags(true, false, true, true)), 0b1011_0000);
    assert_eq!(u8::from(flags(false, false, false, false)), 0);
}

#[test]
fn byte_to_flags_reads_upper_nibble() {
    assert_eq!(FlagsRegister::from(0xFF), flags(true, true, true, true));
    assert_eq!(FlagsRegister::from(0x0F), flags(false, false, false, false));
    assert_eq!(FlagsRegister::from(0b0101_0000), flags(false, true, false, true));
}

#[test]
fn flags_round_trip() {
    for bits in 0..16u8 {
        let f = flags(bits & 8 != 0, bits & 4 != 0, bits & 2 != 0, bits & 1 != 0);
        assert_eq!(FlagsRegister::from(u8::from(f)), f);
    }
    for b in 0..=255u8 {
        assert_eq!(u8::from(FlagsRegister::from(b)), b & 0xF0);
    }
}

#[test]
fn new_registers_are_clear() {
    let r = Registers::new();
    assert_eq!(r.a, 0);
    assert_eq!(r.get_bc(), 0);
    assert_eq!(r.get_de(), 0);
    assert_eq!(r.get_hl(), 0);
    assert_eq!(r.get_af(), 0);
}

#[test]
fn pair_write_then_read() {
    let mut r = Registers::new();
    r.set_bc(0x1234);
    assert_eq!((r.b, r.c), (0x12, 0x34));
    assert_eq!(r.get_bc(), 0x1234);
    r.set_de(0xBEEF);
    assert_eq!((r.d, r.e), (0xBE, 0xEF));
    assert_eq!(r.get_de(), 0xBEEF);
    r.set_hl(0x8001);
    assert_eq!((r.h, r.l), (0x80, 0x01));
    assert_eq!(r.get_hl(), 0x8001);
    // The other pairs are untouched.
    assert_eq!(r.get_bc(), 0x1234);
    assert_eq!(r.get_de(), 0xBEEF);
}

#[test]
fn af_drops_low_nibble_of_f() {
    let mut r = Registers::new();
    r.set_af(0x12FF);
    assert_eq!(r.a, 0x12);
    assert_eq!(r.f, flags(true, true, true, true));
    assert_eq!(r.get_af(), 0x12F0);
    r.set_af(0xAB50);
    assert_eq!(r.get_af(), 0xAB50);
}
