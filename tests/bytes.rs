use gameboy_core::{
    carry_u16_add, carry_u8_add, combine, get_bit_u16, get_bit_u8, get_hi, get_lo,
    half_carry_u16_add, half_carry_u8_add, set_bit_u16, set_bit_u8, set_hi, set_lo, split,
};

#[test]
fn test_get_lo() {
    assert_eq!(get_lo(0xABCD), 0xCD);
}

#[test]
fn test_get_hi() {
    assert_eq!(get_hi(0xABCD), 0xAB);
}

#[test]
fn test_set_lo() {
    let mut n = 0xABCD;
    set_lo(&mut n, 0xEF);
    assert_eq!(n, 0xABEF);
}

#[test]
fn test_set_hi() {
    let mut n = 0xABCD;
    set_hi(&mut n, 0xEF);
    assert_eq!(n, 0xEFCD);
}

#[test]
fn test_get_bit_u16() {
    assert_eq!(get_bit_u16(0b1010, 0), 0);
    assert_eq!(get_bit_u16(0b1010, 1), 1);
    assert_eq!(get_bit_u16(0b1010, 2), 0);
    assert_eq!(get_bit_u16(0b1010, 3), 1);
}

#[test]
fn test_set_bit_u16() {
    let mut n = 0b1010;
    set_bit_u16(&mut n, 0, 1);
    assert_eq!(n, 0b1011);
    set_bit_u16(&mut n, 0, 0);
    assert_eq!(n, 0b1010);
}

#[test]
fn test_get_bit_u8() {
    assert_eq!(get_bit_u8(0b1010, 0), 0);
    assert_eq!(get_bit_u8(0b1010, 1), 1);
    assert_eq!(get_bit_u8(0b1010, 2), 0);
    assert_eq!(get_bit_u8(0b1010, 3), 1);
}

#[test]
fn test_set_bit_u8() {
    let mut n = 0b1010;
    set_bit_u8(&mut n, 0, 1);
    assert_eq!(n, 0b1011);
    set_bit_u8(&mut n, 0, 0);
    assert_eq!(n, 0b1010);
}

#[test]
fn test_combine() {
    assert_eq!(combine(0xAB, 0xCD), 0xABCD);
}

#[test]
fn test_split() {
    assert_eq!(split(0xABCD), (0xAB, 0xCD));
}

#[test]
fn test_half_carry_u8_add() {
    assert_eq!(half_carry_u8_add(0x0F, 0x01), 1);
    assert_eq!(half_carry_u8_add(0x0F, 0x0F), 1);
    assert_eq!(half_carry_u8_add(0x0F, 0x00), 0);
}

#[test]
fn test_carry_u8_add() {
    assert_eq!(carry_u8_add(0xFF, 0x01), 1);
    assert_eq!(carry_u8_add(0xFF, 0x00), 0);
}

#[test]
fn test_carry_u16_add() {
    assert_eq!(carry_u16_add(0xFFFF, 0x0001), 1);
    assert_eq!(carry_u16_add(0xFFFF, 0x0000), 0);
}

#[test]
fn test_half_carry_u16_add() {
    assert_eq!(half_carry_u16_add(0xFFF0, 0x0010), 1);
    assert_eq!(half_carry_u16_add(0xFFF0, 0x0000), 0);
}
