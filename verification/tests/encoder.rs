use adc_sampler::encoder::int_to_ascii;

#[test]
fn encode_zero() {
    let mut buffer = [0u8; 5];
    let length = int_to_ascii(0, &mut buffer);
    assert_eq!(length, 1);
    assert_eq!(&buffer[..length], b"0");
}

#[test]
fn encode_seven() {
    let mut buffer = [0u8; 5];
    let length = int_to_ascii(7, &mut buffer);
    assert_eq!(length, 1);
    assert_eq!(&buffer[..length], b"7");
}

#[test]
fn encode_ten() {
    let mut buffer = [0u8; 5];
    let length = int_to_ascii(10, &mut buffer);
    assert_eq!(length, 2);
    assert_eq!(&buffer[..length], b"10");
}

#[test]
fn encode_thousand() {
    let mut buffer = [0u8; 5];
    let length = int_to_ascii(1000, &mut buffer);
    assert_eq!(length, 4);
    assert_eq!(&buffer[..length], b"1000");
}

#[test]
fn encode_max() {
    let mut buffer = [0u8; 5];
    let length = int_to_ascii(65535, &mut buffer);
    assert_eq!(length, 5);
    assert_eq!(&buffer[..length], b"65535");
}

#[test]
fn encode_all_values_round_trip() {
    for v in (0u32..=65535).step_by(37) {
        let mut buffer = [0u8; 5];
        let length = int_to_ascii(v as u16, &mut buffer);
        assert!(length >= 1);
        let text = std::str::from_utf8(&buffer[..length]).unwrap();
        assert_eq!(text.parse::<u32>().unwrap(), v);
        if v != 0 {
            assert_ne!(buffer[0], b'0');
        }
    }
}

#[test]
fn encode_leaves_trailing_bytes_untouched() {
    let mut buffer = [0xAAu8; 5];
    let length = int_to_ascii(42, &mut buffer);
    assert_eq!(length, 2);
    assert_eq!(&buffer[..2], b"42");
    assert_eq!(&buffer[2..], [0xAA, 0xAA, 0xAA]);
}

#[test]
fn encode_twice_gives_identical_output() {
    for v in [0u16, 7, 99, 512, 1000, 65535] {
        let mut first = [0u8; 5];
        let mut second = [0u8; 5];
        let len_first = int_to_ascii(v, &mut first);
        let len_second = int_to_ascii(v, &mut second);
        assert_eq!(len_first, len_second);
        assert_eq!(first, second);
    }
}
