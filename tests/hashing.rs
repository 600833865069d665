use ink_governance::hashing::{encode_proposal, hash_description, hash_proposal};
use ink_governance::types::{AccountId, CallInput, Hash256, Proposal};

#[test]
fn description_hash_is_blake2_256() {
    let expected: [u8; 32] = [
        0x0e, 0x57, 0x51, 0xc0, 0x26, 0xe5, 0x43, 0xb2, 0xe8, 0xab, 0x2e, 0xb0, 0x60, 0x99, 0xda,
        0xa1, 0xd1, 0xe5, 0xdf, 0x47, 0x77, 0x8f, 0x77, 0x87, 0xfa, 0xab, 0x45, 0xcd, 0xf1, 0x2f,
        0xe3, 0xa8,
    ];
    assert_eq!(hash_description(&vec![]), Hash256(expected));
    let h = hash_description(&b"Test proposal".to_vec());
    assert_ne!(h, Hash256(expected));
    assert_eq!(h, hash_description(&b"Test proposal".to_vec()));
}

#[test]
fn proposal_encoding_is_scale() {
    let p = Proposal {
        callee: AccountId([7; 32]),
        selector: [1, 2, 3, 4],
        input: vec![9, 8, 7],
        transferred_value: 0x0102,
    };
    let mut expected = vec![7u8; 32];
    expected.extend_from_slice(&[1, 2, 3, 4]);
    expected.extend_from_slice(&[12, 9, 8, 7]);
    expected.extend_from_slice(&[0x02, 0x01]);
    expected.extend_from_slice(&[0u8; 14]);
    assert_eq!(encode_proposal(&p), expected);
}

#[test]
fn proposal_ids_are_deterministic_and_distinct() {
    let d1 = hash_description(&b"one".to_vec());
    let d2 = hash_description(&b"two".to_vec());
    let plain = Proposal::default();
    let mut by_selector = Proposal::default();
    by_selector.selector = [0, 0, 0, 1];
    let mut by_input = Proposal::default();
    by_input.input = vec![0];
    let mut by_value = Proposal::default();
    by_value.transferred_value = 1;
    let mut by_callee = Proposal::default();
    by_callee.callee = AccountId([1; 32]);
    assert_eq!(hash_proposal(&plain, &d1), hash_proposal(&plain.clone(), &d1));
    let ids = vec![
        hash_proposal(&plain, &d1),
        hash_proposal(&plain, &d2),
        hash_proposal(&by_selector, &d1),
        hash_proposal(&by_input, &d1),
        hash_proposal(&by_value, &d1),
        hash_proposal(&by_callee, &d1),
    ];
    for i in 0..ids.len() {
        for j in 0..ids.len() {
            if i != j {
                assert_ne!(ids[i], ids[j]);
            }
        }
    }
}

#[test]
fn call_input_is_raw_bytes() {
    let bytes = [5u8, 6, 7];
    let mut out = vec![1u8];
    CallInput(&bytes).encode_to(&mut out);
    assert_eq!(out, vec![1, 5, 6, 7]);
}

#[test]
fn default_proposal_is_zero() {
    let p = Proposal::default();
    assert_eq!(p.callee, AccountId([0; 32]));
    assert_eq!(p.selector, [0; 4]);
    assert!(p.input.is_empty());
    assert_eq!(p.transferred_value, 0);
}


#[test]
fn long_input_gets_two_byte_length() {
    let p = Proposal {
        callee: AccountId([0; 32]),
        selector: [0; 4],
        input: vec![5u8; 64],
        transferred_value: 0,
    };
    let encoded = encode_proposal(&p);
    assert_eq!(encoded.len(), 32 + 4 + 2 + 64 + 16);
    assert_eq!(&encoded[36..38], &[0x01, 0x01]);
    assert_eq!(&encoded[38..102], &[5u8; 64][..]);
}
