use mlx90614::crc8;

#[test]
fn crc8_empty_input_is_zero() {
    assert_eq!(crc8(&[]), 0);
}

#[test]
fn crc8_golden_vector() {
    // The standard check value of this code (polynomial 0x07, initial
    // value 0, no reflection, no final exclusive-or) over "123456789".
    assert_eq!(crc8(b"123456789"), 0xF4);
}

#[test]
fn crc8_single_bytes() {
    assert_eq!(crc8(&[0x00]), 0x00);
    assert_eq!(crc8(&[0x01]), 0x07);
}

#[test]
fn crc8_is_pure() {
    let input = [0xB4u8, 0x07, 0xB5, 0x01, 0x39];
    let first = crc8(&input);
    let second = crc8(&input);
    assert_eq!(first, second);
}
