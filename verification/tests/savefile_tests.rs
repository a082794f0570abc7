use pawsse::savefile::{decode_record, encode_record, recover_total_pets};

#[test]
fn record_shape_is_exact() {
    assert_eq!(encode_record(0), b"{\"total_pets\":0}".to_vec());
    assert_eq!(encode_record(42), b"{\"total_pets\":42}".to_vec());
    assert_eq!(
        encode_record(u32::MAX),
        b"{\"total_pets\":4294967295}".to_vec()
    );
}

#[test]
fn save_then_load_round_trips() {
    // save(42) then load() returns 42.
    let saved = encode_record(42);
    assert_eq!(decode_record(&saved), Some(42));
    assert_eq!(recover_total_pets(Some(saved)), 42);

    for n in [0u32, 1, 9, 10, 99, 100, 12345, u32::MAX - 1, u32::MAX] {
        assert_eq!(decode_record(&encode_record(n)), Some(n));
    }
}

#[test]
fn missing_record_counts_as_zero() {
    assert_eq!(recover_total_pets(None), 0);
}

#[test]
fn corrupt_records_count_as_zero() {
    let corrupt: [&[u8]; 8] = [
        b"",
        b"garbage",
        b"{\"total_pets\":}",
        b"{\"total_pets\":12",
        b"{\"total_pets\":1x}",
        b"{\"total_pet\":12}",
        b"[\"total_pets\",12]",
        b"{\"total_pets\":-1}",
    ];
    for bytes in corrupt {
        assert_eq!(decode_record(&bytes.to_vec()), None);
        assert_eq!(recover_total_pets(Some(bytes.to_vec())), 0);
    }
}

#[test]
fn redundant_leading_zero_is_rejected() {
    assert_eq!(decode_record(&b"{\"total_pets\":01}".to_vec()), None);
    assert_eq!(decode_record(&b"{\"total_pets\":0}".to_vec()), Some(0));
}

#[test]
fn counts_beyond_32_bits_are_rejected() {
    assert_eq!(decode_record(&b"{\"total_pets\":4294967295}".to_vec()), Some(u32::MAX));
    assert_eq!(decode_record(&b"{\"total_pets\":4294967296}".to_vec()), None);
    assert_eq!(
        decode_record(&b"{\"total_pets\":99999999999999999999}".to_vec()),
        None
    );
}

#[test]
fn trailing_bytes_are_rejected() {
    assert_eq!(decode_record(&b"{\"total_pets\":42} ".to_vec()), None);
    assert_eq!(decode_record(&b"{\"total_pets\":42}}".to_vec()), None);
}
