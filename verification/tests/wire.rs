use motor_lib::wire::{
    clamp_to_i16, decode_be_i16, decode_sign_magnitude, encode_be_i16, encode_sign_magnitude,
};

#[test]
fn sign_magnitude_encodes_sign_and_magnitude() {
    assert_eq!(encode_sign_magnitude(1000), (0, 1000));
    assert_eq!(encode_sign_magnitude(-1000), (1, 1000));
    assert_eq!(encode_sign_magnitude(0), (0, 0));
    assert_eq!(encode_sign_magnitude(32767), (0, 32767));
    assert_eq!(encode_sign_magnitude(-32768), (1, 32768));
}

#[test]
fn sign_magnitude_round_trips_every_sample() {
    let samples: [i16; 9] = [-32768, -32767, -1000, -1, 0, 1, 255, 1000, 32767];
    for v in samples {
        let (sign, magnitude) = encode_sign_magnitude(v);
        assert_eq!(decode_sign_magnitude(sign, magnitude), v);
    }
}

#[test]
fn negative_zero_decodes_to_plain_zero() {
    assert_eq!(decode_sign_magnitude(1, 0), 0);
    assert_eq!(decode_sign_magnitude(1, 0), decode_sign_magnitude(0, 0));
}

#[test]
fn twos_complement_encoding_is_big_endian() {
    assert_eq!(encode_be_i16(1000), (0x03, 0xe8));
    assert_eq!(encode_be_i16(-1000), (0xfc, 0x18));
    assert_eq!(encode_be_i16(-2), (0xff, 0xfe));
    assert_eq!(encode_be_i16(-32768), (0x80, 0x00));
    assert_eq!(encode_be_i16(0), (0x00, 0x00));
}

#[test]
fn twos_complement_decoding_round_trips() {
    let samples: [i16; 8] = [-32768, -1000, -2, -1, 0, 1, 1000, 32767];
    for v in samples {
        let (hi, lo) = encode_be_i16(v);
        assert_eq!(decode_be_i16(hi, lo), v);
    }
    assert_eq!(decode_be_i16(0x80, 0x00), -32768);
    assert_eq!(decode_be_i16(0xff, 0xff), -1);
    assert_eq!(decode_be_i16(0x7f, 0xff), 32767);
}

#[test]
fn clamp_saturates_at_the_i16_bounds() {
    assert_eq!(clamp_to_i16(43945), 32767);
    assert_eq!(clamp_to_i16(-43945), -32768);
    assert_eq!(clamp_to_i16(100), 100);
}
