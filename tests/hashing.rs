use ismp::router::{Get, Post, Request, Response};
use ismp::state_machine::StateMachine;
use ismp::util::{hash_request, hash_response, is_encodable, request_bytes};

fn post(nonce: u64) -> Request {
    Request::Post(Post {
        source_chain: StateMachine::Ethereum,
        dest_chain: StateMachine::Polkadot(2000),
        nonce,
        from: vec![1, 2],
        to: vec![3],
        timeout_timestamp: 0x0102,
        data: vec![9, 9],
    })
}

#[test]
fn canonical_text_of_state_machines() {
    assert_eq!(StateMachine::Ethereum.text(), b"ETHEREUM".to_vec());
    assert_eq!(StateMachine::Arbitrum.text(), b"ARBITRUM".to_vec());
    assert_eq!(StateMachine::Optimism.text(), b"OPTIMISM".to_vec());
    assert_eq!(StateMachine::Polkadot(1000).text(), b"POLKADOT-1000".to_vec());
    assert_eq!(StateMachine::Kusama(0).text(), b"KUSAMA-0".to_vec());
    assert_eq!(StateMachine::Kusama(4294967295).text(), b"KUSAMA-4294967295".to_vec());
}

#[test]
fn post_request_bytes_follow_the_canonical_order() {
    let mut expected = b"ETHEREUMPOLKADOT-2000".to_vec();
    expected.extend_from_slice(&[0, 0, 0, 0, 0, 0, 0, 7]);
    expected.extend_from_slice(&[0, 0, 0, 0, 0, 0, 1, 2]);
    expected.extend_from_slice(&[1, 2, 3, 9, 9]);
    assert_eq!(request_bytes(&post(7)), expected);
}

#[test]
fn get_request_bytes_end_with_scale_encoded_keys() {
    let req = Request::Get(Get {
        source_chain: StateMachine::Kusama(5),
        dest_chain: StateMachine::Arbitrum,
        nonce: 1,
        from: vec![0xaa],
        keys: vec![vec![1, 2], vec![3]],
        height: 0x10,
        timeout_timestamp: 0x20,
    });
    assert!(is_encodable(&req));
    let mut expected = b"KUSAMA-5ARBITRUM".to_vec();
    expected.extend_from_slice(&[0, 0, 0, 0, 0, 0, 0, 1]);
    expected.extend_from_slice(&[0, 0, 0, 0, 0, 0, 0, 0x10]);
    expected.extend_from_slice(&[0, 0, 0, 0, 0, 0, 0, 0x20]);
    expected.push(0xaa);
    expected.extend_from_slice(&[8, 8, 1, 2, 4, 3]);
    assert_eq!(request_bytes(&req), expected);
}

#[test]
fn long_key_lists_use_the_two_byte_compact_length() {
    let keys: Vec<Vec<u8>> = (0..64).map(|_| vec![]).collect();
    let req = Request::Get(Get {
        source_chain: StateMachine::Ethereum,
        dest_chain: StateMachine::Ethereum,
        nonce: 0,
        from: vec![],
        keys,
        height: 0,
        timeout_timestamp: 0,
    });
    let bytes = request_bytes(&req);
    // 64 * 4 + 1 = 0x0101, little endian, then 64 empty keys of one byte each.
    assert_eq!(bytes.len(), 16 + 24 + 2 + 64);
    assert_eq!(&bytes[40..42], &[0x01, 0x01]);
    assert!(bytes[42..].iter().all(|b| *b == 0));
}

#[test]
fn request_hash_is_keccak_of_its_bytes() {
    let req = post(7);
    let expected = keccak_hash::keccak(request_bytes(&req)).0;
    assert_eq!(hash_request(&req), expected);
    assert_ne!(hash_request(&req).to_vec(), request_bytes(&req)[..32].to_vec());
}

#[test]
fn hashing_is_deterministic_and_separates_nonces() {
    assert_eq!(hash_request(&post(1)), hash_request(&post(1)));
    assert_ne!(hash_request(&post(1)), hash_request(&post(2)));
}

#[test]
fn response_hash_covers_the_body_in_canonical_order() {
    let res = Response { request: post(7), response: vec![5] };
    let mut expected = b"ETHEREUMPOLKADOT-2000".to_vec();
    expected.extend_from_slice(&[0, 0, 0, 0, 0, 0, 0, 7]);
    expected.extend_from_slice(&[0, 0, 0, 0, 0, 0, 1, 2]);
    expected.extend_from_slice(&[9, 9, 1, 2, 3, 5]);
    assert_eq!(hash_response(&res), Some(keccak_hash::keccak(&expected).0));
}

#[test]
fn responses_to_get_requests_are_not_hashed() {
    let req = Request::Get(Get {
        source_chain: StateMachine::Ethereum,
        dest_chain: StateMachine::Arbitrum,
        nonce: 0,
        from: vec![],
        keys: vec![],
        height: 0,
        timeout_timestamp: 0,
    });
    assert_eq!(hash_response(&Response { request: req, response: vec![1] }), None);
}
