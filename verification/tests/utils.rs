use near_receipts::crypto::{parse_public_key, PublicKey};
use near_receipts::data_id::new_data_id;
use near_receipts::hash::CryptoHash;
use near_receipts::method_name::decode_method_names;
use near_receipts::utils::{
    create_nonce_with_nonce, from_timestamp, generate_random_string, get_block_shard_id,
    get_num_seats_per_shard, index_to_bytes, ser, to_timestamp, DisplayOption, UtcTime,
};
use std::cmp::max;

#[test]
fn test_num_chunk_producers() {
    for num_seats in 1..50 {
        for num_shards in 1..50 {
            let assignment = get_num_seats_per_shard(num_shards, num_seats);
            assert_eq!(assignment.iter().sum::<u64>(), max(num_seats, num_shards));
        }
    }
}

#[test]
fn seats_are_dealt_out_from_the_front() {
    assert_eq!(get_num_seats_per_shard(3, 7), vec![3, 2, 2]);
    assert_eq!(get_num_seats_per_shard(4, 8), vec![2, 2, 2, 2]);
    assert_eq!(get_num_seats_per_shard(4, 2), vec![1, 1, 1, 1]);
    assert_eq!(get_num_seats_per_shard(1, 0), vec![1]);
    assert_eq!(get_num_seats_per_shard(0, 5), Vec::<u64>::new());
    assert_eq!(get_num_seats_per_shard(2, u64::MAX), vec![1 << 63, (1 << 63) - 1]);
}

#[test]
fn block_shard_id_is_hash_then_shard() {
    let mut hash = [0u8; 32];
    for (i, byte) in hash.iter_mut().enumerate() {
        *byte = i as u8;
    }
    let key = get_block_shard_id(&CryptoHash(hash), 0x0102030405060708);
    let mut expected: Vec<u8> = (0..32u8).collect();
    expected.extend([8, 7, 6, 5, 4, 3, 2, 1]);
    assert_eq!(key, expected);
    assert_eq!(key.len(), 40);
}

#[test]
fn index_bytes_are_little_endian() {
    assert_eq!(index_to_bytes(0), vec![0, 0, 0, 0, 0, 0, 0, 0]);
    assert_eq!(index_to_bytes(0x0102030405060708), vec![8, 7, 6, 5, 4, 3, 2, 1]);
    assert_eq!(index_to_bytes(u64::MAX), vec![255; 8]);
}

#[test]
fn nonce_is_the_digest_of_base_and_salt() {
    assert_eq!(
        create_nonce_with_nonce(&CryptoHash::default(), 0),
        CryptoHash([
            44, 52, 206, 29, 242, 59, 131, 140, 90, 191, 42, 127, 100, 55, 204, 163, 211, 6, 126,
            213, 9, 255, 37, 241, 29, 246, 177, 27, 88, 43, 81, 235
        ])
    );
    let mut base = [0u8; 32];
    for (i, byte) in base.iter_mut().enumerate() {
        *byte = i as u8;
    }
    assert_eq!(
        create_nonce_with_nonce(&CryptoHash(base), 0x0102030405060708),
        CryptoHash([
            39, 79, 109, 252, 11, 160, 72, 49, 1, 98, 124, 177, 215, 206, 147, 254, 34, 252, 134,
            225, 223, 3, 227, 196, 3, 168, 43, 42, 211, 8, 251, 218
        ])
    );
}

#[test]
fn default_hash_is_all_zero() {
    assert_eq!(CryptoHash::default(), CryptoHash([0u8; 32]));
}

#[test]
fn data_id_holds_receipt_and_position() {
    assert_eq!(new_data_id(0, 0), CryptoHash([0u8; 32]));
    let mut expected = [0u8; 32];
    expected[0] = 0x02;
    expected[1] = 0x01;
    expected[8] = 0x04;
    expected[9] = 0x03;
    assert_eq!(new_data_id(0x0102, 0x0304), CryptoHash(expected));
    let mut full = [0u8; 32];
    for byte in full.iter_mut().take(16) {
        *byte = 255;
    }
    assert_eq!(new_data_id(u64::MAX, u64::MAX), CryptoHash(full));
}

#[test]
fn public_keys_are_decoded_by_curve() {
    let mut encoding = vec![0u8];
    encoding.extend(std::iter::repeat(7u8).take(32));
    assert_eq!(parse_public_key(&encoding), Some(PublicKey::ED25519([7u8; 32])));
    let mut encoding = vec![1u8];
    encoding.extend(std::iter::repeat(9u8).take(64));
    assert_eq!(parse_public_key(&encoding), Some(PublicKey::SECP256K1([9u8; 64])));
    assert_eq!(parse_public_key(&[]), None);
    assert_eq!(parse_public_key(&[0u8; 32]), None);
    assert_eq!(parse_public_key(&[0u8; 34]), None);
    assert_eq!(parse_public_key(&[1u8; 33]), None);
    assert_eq!(parse_public_key(&[2u8; 33]), None);
}

#[test]
fn method_names_are_decoded_together() {
    assert_eq!(
        decode_method_names(&vec![b"a".to_vec(), "ß".as_bytes().to_vec(), vec![]]),
        Some(vec!["a".to_string(), "ß".to_string(), String::new()])
    );
    assert_eq!(decode_method_names(&vec![]), Some(vec![]));
    assert_eq!(decode_method_names(&vec![b"a".to_vec(), vec![0xe2, 0x82]]), None);
}

#[test]
fn random_string_has_the_length_asked_for() {
    for len in [0usize, 1, 16, 257] {
        let s = generate_random_string(len);
        assert_eq!(s.chars().count(), len);
        assert!(s.chars().all(|c| c.is_ascii_alphanumeric()));
    }
}

#[test]
fn display_option_shows_some_and_none() {
    assert_eq!(DisplayOption(Some(5)).to_text("5"), "Some(5)");
    assert_eq!(DisplayOption::<u32>(None).to_text(""), "None");
    assert_eq!(DisplayOption::<u32>(None).to_text("ignored"), "None");
}

#[test]
fn display_option_wraps_and_unwraps() {
    assert_eq!(DisplayOption(Some(5)).into(), Some(5));
    assert_eq!(DisplayOption::<u8>(None).into(), None);
    assert_eq!(DisplayOption::from(Some("x")).0, Some("x"));
    let wrapped = DisplayOption(Some(3u8));
    let inner: &Option<u8> = wrapped.as_ref();
    assert_eq!(inner, &Some(3u8));
}

#[test]
fn ser_keeps_the_object() {
    let object = vec![1, 2, 3];
    assert_eq!(ser(&object).get(), &object);
}

#[test]
fn timestamp_splits_into_seconds_and_nanoseconds() {
    assert_eq!(from_timestamp(0), UtcTime { secs: 0, nsecs: 0 });
    assert_eq!(from_timestamp(1_500_000_001), UtcTime { secs: 1, nsecs: 500_000_001 });
    assert_eq!(
        from_timestamp(u64::MAX),
        UtcTime { secs: 18_446_744_073, nsecs: 709_551_615 }
    );
}

#[test]
fn timestamp_round_trip() {
    for timestamp in [0u64, 1, 999_999_999, 1_000_000_000, 1_600_000_000_123_456_789] {
        assert_eq!(to_timestamp(from_timestamp(timestamp)), timestamp);
    }
    assert_eq!(to_timestamp(UtcTime { secs: -1, nsecs: 999_999_999 }), u64::MAX);
    assert_eq!(to_timestamp(UtcTime { secs: -1, nsecs: 0 }), u64::MAX - 999_999_999);
}
