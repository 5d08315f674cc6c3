use motor_pid::wire::{decode_wire_words, encode_wire_words, FloatCDAB};

fn round_trip_bits(value: f32) {
    let bits = value.to_bits();
    let wire = FloatCDAB::from_bits(bits);
    let back = f32::from_bits(wire.to_bits());
    assert_eq!(back.to_bits(), bits);
    let (first, second) = encode_wire_words(bits);
    assert_eq!(decode_wire_words(first, second), bits);
}

#[test]
fn wire_round_trip_positive() {
    let value: f32 = 3.14159;
    round_trip_bits(value);
    let wire = FloatCDAB::from_bits(value.to_bits());
    assert_eq!(f32::from_bits(wire.to_bits()), 3.14159);
}

#[test]
fn wire_round_trip_negative() {
    round_trip_bits(-2.71828);
}

#[test]
fn wire_round_trip_zero() {
    round_trip_bits(0.0);
}

#[test]
fn wire_round_trip_infinity() {
    round_trip_bits(f32::INFINITY);
    round_trip_bits(f32::NEG_INFINITY);
}

#[test]
fn wire_byte_order_is_word_swapped() {
    let value: f32 = 1.0;
    let [a, b, c, d] = value.to_le_bytes();
    let wire = FloatCDAB::from_bits(value.to_bits());
    assert_eq!(wire.raw_bytes(), [c, d, a, b]);

    let (first, second) = encode_wire_words(value.to_bits());
    assert_eq!(first, u16::from_be_bytes([c, d]));
    assert_eq!(second, u16::from_be_bytes([a, b]));
}

#[test]
fn wire_from_raw_bytes_round_trip() {
    let raw = [0x12u8, 0x34, 0x56, 0x78];
    let wire = FloatCDAB::from_raw_bytes(raw);
    assert_eq!(wire.raw_bytes(), raw);
    let rebuilt = FloatCDAB::from_bits(wire.to_bits());
    assert_eq!(rebuilt.raw_bytes(), raw);
}
