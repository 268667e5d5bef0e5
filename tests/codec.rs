use sgp30::{decode_words_with_crc, ChecksumError, Command};

#[test]
fn crc8_reference_vector() {
    // The checksum that encoding appends to the word 0xBEEF is 0x92.
    let request = Command::SetHumidity.as_bytes_with_data(&[0xBE, 0xEF]);
    assert_eq!(request, vec![0x20, 0x61, 0xBE, 0xEF, 0x92]);
}

#[test]
fn command_opcodes() {
    assert_eq!(Command::GetSerial.as_bytes(), [0x36, 0x82]);
    assert_eq!(Command::SelfTest.as_bytes(), [0x20, 0x32]);
    assert_eq!(Command::InitAirQuality.as_bytes(), [0x20, 0x03]);
    assert_eq!(Command::MeasureAirQuality.as_bytes(), [0x20, 0x08]);
    assert_eq!(Command::MeasureRawSignals.as_bytes(), [0x20, 0x50]);
    assert_eq!(Command::GetBaseline.as_bytes(), [0x20, 0x15]);
    assert_eq!(Command::SetBaseline.as_bytes(), [0x20, 0x1E]);
    assert_eq!(Command::SetHumidity.as_bytes(), [0x20, 0x61]);
    assert_eq!(Command::GetFeatureSet.as_bytes(), [0x20, 0x2F]);
}

#[test]
fn encode_two_words() {
    let request = Command::SetBaseline.as_bytes_with_data(&[0x56, 0x78, 0x12, 0x34]);
    assert_eq!(request, vec![0x20, 0x1E, 0x56, 0x78, 0x7D, 0x12, 0x34, 0x37]);
}

#[test]
fn encode_then_decode_round_trip() {
    for data in [vec![0x0F, 0x80], vec![0x00, 0x00], vec![0xDE, 0xAD, 0xBE, 0xEF], vec![0xFF, 0xFF, 0x00, 0x01]] {
        let request = Command::SetBaseline.as_bytes_with_data(&data);
        assert_eq!(request.len(), 2 + data.len() / 2 * 3);
        let words = decode_words_with_crc(&request[2..]).unwrap();
        let expected: Vec<u16> = data.chunks(2).map(|c| u16::from_be_bytes([c[0], c[1]])).collect();
        assert_eq!(words, expected);
    }
}

#[test]
fn decode_one_valid_word() {
    assert_eq!(decode_words_with_crc(&[0xBE, 0xEF, 0x92]), Ok(vec![0xBEEF]));
}

#[test]
fn decode_bad_checksum() {
    assert_eq!(decode_words_with_crc(&[0xBE, 0xEF, 0x91]), Err(ChecksumError));
}

#[test]
fn decode_ignores_trailing_partial_group() {
    assert_eq!(
        decode_words_with_crc(&[0xBE, 0xEF, 0x92, 0xBE, 0xEF, 0x92, 0x00, 0x00]),
        Ok(vec![0xBEEF, 0xBEEF])
    );
}

#[test]
fn decode_fails_on_first_group() {
    assert_eq!(
        decode_words_with_crc(&[0xBE, 0xEF, 0x91, 0xBE, 0xEF, 0xFF, 0x00, 0x00]),
        Err(ChecksumError)
    );
}

#[test]
fn decode_fails_on_later_group() {
    assert_eq!(decode_words_with_crc(&[0xBE, 0xEF, 0x92, 0xBE, 0xEF, 0x93]), Err(ChecksumError));
}

#[test]
fn decode_empty_and_short() {
    assert_eq!(decode_words_with_crc(&[]), Ok(vec![]));
    assert_eq!(decode_words_with_crc(&[0xBE, 0xEF]), Ok(vec![]));
}

#[test]
fn single_bit_flip_changes_checksum() {
    let words: [[u8; 2]; 4] = [[0xBE, 0xEF], [0x00, 0x00], [0xFF, 0xFF], [0x12, 0x34]];
    for w in words {
        let base = Command::SetHumidity.as_bytes_with_data(&w)[4];
        for bit in 0..16u32 {
            let mut flipped = w;
            flipped[(bit / 8) as usize] ^= 1 << (bit % 8);
            let other = Command::SetHumidity.as_bytes_with_data(&flipped)[4];
            assert_ne!(base, other, "word {:?} bit {}", w, bit);
        }
    }
}
