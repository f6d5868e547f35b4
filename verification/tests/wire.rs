use gridpool_ckpool_adapter::wire::{
    parse_tx_output_vector, read_compact_size, read_le, WireError,
};

fn output(value: u64, script: &[u8]) -> Vec<u8> {
    let mut bytes = value.to_le_bytes().to_vec();
    bytes.push(script.len() as u8);
    bytes.extend_from_slice(script);
    bytes
}

#[test]
fn full_gridpool_suffix_exceeds_legacy_eight_kibibyte_buffers() {
    let mut encoded = vec![0xfd, 0x2b, 0x01]; // CompactSize(299)
    for index in 0..299u64 {
        encoded.extend_from_slice(&(1_000 + index).to_le_bytes());
        encoded.push(22);
        encoded.extend_from_slice(&[0x00, 0x14]);
        encoded.extend_from_slice(&index.to_le_bytes());
        encoded.extend_from_slice(&[0x42; 12]);
    }

    assert!(encoded.len() > 8 * 1024);
    assert_eq!(parse_tx_output_vector(&encoded).unwrap(), 299);
}

#[test]
fn compact_sizes_of_every_width_are_read() {
    assert_eq!(read_compact_size(&[0xfc], 0), Ok((0xfc, 1)));
    assert_eq!(read_compact_size(&[9, 0xfd, 0x2b, 0x01], 1), Ok((299, 4)));
    assert_eq!(
        read_compact_size(&[0xfe, 0x78, 0x56, 0x34, 0x12], 0),
        Ok((0x1234_5678, 5))
    );
    assert_eq!(
        read_compact_size(&[0xff, 8, 7, 6, 5, 4, 3, 2, 1], 0),
        Ok((0x0102_0304_0506_0708, 9))
    );
    assert_eq!(
        read_compact_size(&[0xff, 0xff, 0xff, 0xff, 0xff, 0xff, 0xff, 0xff, 0xff], 0),
        Ok((u64::MAX, 9))
    );
}

#[test]
fn longer_encodings_than_needed_are_accepted() {
    assert_eq!(read_compact_size(&[0xfd, 0x01, 0x00], 0), Ok((1, 3)));
    let mut data = vec![0xfe, 1, 0, 0, 0];
    data.extend(output(7, &[0x51]));
    assert_eq!(parse_tx_output_vector(&data), Ok(1));
}

#[test]
fn little_endian_reads_tell_overflow_from_truncation() {
    assert_eq!(read_le(&[1, 2, 3], 1, 2), Ok((0x0302, 3)));
    assert_eq!(read_le(&[1, 2, 3], 3, 0), Ok((0, 3)));
    assert_eq!(read_le(&[1, 2, 3], 2, 2), Err(WireError::TruncatedCompactSize));
    assert_eq!(read_le(&[1, 2, 3], usize::MAX, 2), Err(WireError::CompactSizeOverflow));
}

#[test]
fn malformed_vectors_are_told_apart() {
    assert_eq!(parse_tx_output_vector(&[]), Err(WireError::MissingCompactSize));
    assert_eq!(parse_tx_output_vector(&[0xfd, 1]), Err(WireError::TruncatedCompactSize));
    assert_eq!(parse_tx_output_vector(&[1, 0, 0]), Err(WireError::TruncatedValue));
    assert_eq!(
        parse_tx_output_vector(&[1, 0, 0, 0, 0, 0, 0, 0, 0]),
        Err(WireError::MissingCompactSize)
    );
    assert_eq!(
        parse_tx_output_vector(&[1, 0, 0, 0, 0, 0, 0, 0, 0, 2, 0x51]),
        Err(WireError::TruncatedScript)
    );
    let mut huge = vec![1, 0, 0, 0, 0, 0, 0, 0, 0];
    huge.extend_from_slice(&[0xff; 9]);
    assert_eq!(parse_tx_output_vector(&huge), Err(WireError::ScriptLengthOverflow));
    assert_eq!(parse_tx_output_vector(&[0, 9]), Err(WireError::TrailingBytes));
}

#[test]
fn written_vectors_are_counted() {
    assert_eq!(parse_tx_output_vector(&[0]), Ok(0));
    let mut data = vec![3];
    data.extend(output(1, &[]));
    data.extend(output(u64::MAX, &[0x6a, 0x01]));
    data.extend(output(0, &[0x51; 100]));
    assert_eq!(parse_tx_output_vector(&data), Ok(3));
    assert!(data.len() >= 1 + 9 * 3);
}

#[test]
fn wire_errors_have_messages() {
    assert_eq!(WireError::MissingCompactSize.message(), "missing compact size");
    assert_eq!(WireError::CompactSizeOverflow.message(), "compact size overflow");
    assert_eq!(WireError::TruncatedCompactSize.message(), "truncated compact size");
    assert_eq!(WireError::OutputCountOverflow.message(), "output count overflow");
    assert_eq!(WireError::TruncatedValue.message(), "truncated payout value");
    assert_eq!(WireError::ScriptLengthOverflow.message(), "script length overflow");
    assert_eq!(WireError::TruncatedScript.message(), "truncated payout script");
    assert_eq!(WireError::TrailingBytes.message(), "trailing bytes in payout vector");
}
