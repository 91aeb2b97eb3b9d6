use hx711_spi::{decode_reading, encode_clock_train, encode_sample, reset_burst_len, Channel, Mode};

#[test]
fn decode_alternating_low_bits_is_zero() {
    let buffer: [u8; 7] = [0x55, 0x55, 0x55, 0x55, 0x55, 0x55, 0x55];
    assert_eq!(decode_reading(&buffer), 0);
}

#[test]
fn decode_alternating_high_bits_is_minus_one() {
    let buffer: [u8; 7] = [0xAA, 0xAA, 0xAA, 0xAA, 0xAA, 0xAA, 0xAA];
    assert_eq!(decode_reading(&buffer), -1);
}

#[test]
fn decode_all_ones_is_minus_one() {
    let buffer: [u8; 7] = [0xFF, 0xFF, 0xFF, 0xFF, 0xFF, 0xFF, 0xFF];
    assert_eq!(decode_reading(&buffer), -1);
}

#[test]
fn decode_test_pattern() {
    let buffer: [u8; 7] = [
        0b0010_0111,
        0b0010_0111,
        0b0010_0111,
        0b0010_0111,
        0b0010_0111,
        0b0010_0111,
        0b0010_0111,
    ];
    assert_eq!(decode_reading(&buffer), 0x0055_5555);
}

#[test]
fn decode_ignores_second_bit_of_each_pair() {
    // 0x80 and 0xC0 differ only in a second-of-pair bit.
    let a: [u8; 7] = [0x80, 0x00, 0x00, 0x00, 0x00, 0x00, 0x00];
    let b: [u8; 7] = [0xC0, 0x00, 0x00, 0x00, 0x00, 0x00, 0x00];
    assert_eq!(decode_reading(&a), decode_reading(&b));
}

#[test]
fn decode_most_negative_value() {
    // Only the sign bit set: first bit of the very first pair.
    let buffer: [u8; 7] = [0x80, 0x00, 0x00, 0x00, 0x00, 0x00, 0x00];
    assert_eq!(decode_reading(&buffer), -0x0080_0000);
}

#[test]
fn decode_largest_positive_value() {
    // Every data bit but the sign bit set: pairs 01 count as clear.
    let buffer: [u8; 7] = [0x2A, 0xAA, 0xAA, 0xAA, 0xAA, 0xAA, 0x00];
    assert_eq!(decode_reading(&buffer), 0x007F_FFFF);
}

#[test]
fn encode_sample_round_trips_positive() {
    let encoded = encode_sample(0x0012_3456);
    let mut buffer: [u8; 7] = [0; 7];
    buffer[..6].copy_from_slice(&encoded);
    assert_eq!(decode_reading(&buffer), 0x0012_3456);
}

#[test]
fn encode_sample_round_trips_negative() {
    let encoded = encode_sample(0x00FF_FFFE);
    let mut buffer: [u8; 7] = [0; 7];
    buffer[..6].copy_from_slice(&encoded);
    assert_eq!(decode_reading(&buffer), -2);
}

#[test]
fn encode_sample_doubles_bits() {
    // 0xFFFFFF spreads to all first-of-pair bits high: 0xAA bytes.
    assert_eq!(encode_sample(0x00FF_FFFF), vec![0xAA; 6]);
    assert_eq!(encode_sample(0), vec![0x00; 6]);
}

#[test]
fn clock_train_is_six_clock_bytes_and_trailer() {
    assert_eq!(
        encode_clock_train(Mode::ChAGain128),
        vec![0xAA, 0xAA, 0xAA, 0xAA, 0xAA, 0xAA, 0x80]
    );
    assert_eq!(
        encode_clock_train(Mode::ChBGain32),
        vec![0xAA, 0xAA, 0xAA, 0xAA, 0xAA, 0xAA, 0xA0]
    );
    assert_eq!(
        encode_clock_train(Mode::ChAGain64),
        vec![0xAA, 0xAA, 0xAA, 0xAA, 0xAA, 0xAA, 0xA8]
    );
}

#[test]
fn mode_registry_exposes_fixed_tuples() {
    assert_eq!(Mode::ChAGain128.channel(), Channel::A);
    assert_eq!(Mode::ChAGain128.gain(), 128);
    assert_eq!(Mode::ChAGain128.trailer_pulses(), 25);
    assert_eq!(Mode::ChBGain32.channel(), Channel::B);
    assert_eq!(Mode::ChBGain32.gain(), 32);
    assert_eq!(Mode::ChBGain32.trailer_pulses(), 26);
    assert_eq!(Mode::ChAGain64.channel(), Channel::A);
    assert_eq!(Mode::ChAGain64.gain(), 64);
    assert_eq!(Mode::ChAGain64.trailer_pulses(), 27);
}

#[test]
fn mode_trailer_bytes() {
    assert_eq!(Mode::ChAGain128.trailer_byte(), 0x80);
    assert_eq!(Mode::ChBGain32.trailer_byte(), 0xA0);
    assert_eq!(Mode::ChAGain64.trailer_byte(), 0xA8);
}

#[test]
fn reset_burst_len_exceeds_threshold() {
    // One byte is eight half-bits; the high time must exceed 60 us.
    assert_eq!(reset_burst_len(20_000), 1);
    assert_eq!(reset_burst_len(1_000_000), 8);
    assert_eq!(reset_burst_len(5_000_000), 38);
    for hz in [20_000u32, 1_000_000, 5_000_000] {
        let bytes = reset_burst_len(hz) as u64;
        assert!(bytes * 8_000_000 > hz as u64 * 60);
    }
}
