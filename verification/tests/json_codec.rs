//! The JSON-ish escaped string codec, fuzzed over random byte strings.

use minetest_protocol::wire::util::{
    deserialize_json_string_if_needed, serialize_json_string_if_needed,
};
use rand::RngExt;

fn rand_bytes(max_len: usize) -> Vec<u8> {
    let mut rng = rand::rng();
    let length = rng.random_range(0..max_len);
    let mut input = vec![0u8; length];
    for b in input.iter_mut() {
        *b = rng.random_range(0..=255u32) as u8;
    }
    input
}

fn serialize_to_vec(input: &[u8]) -> Vec<u8> {
    let mut out = Vec::new();
    serialize_json_string_if_needed(input, &mut out);
    out
}

#[test]
fn json_serialize_deserialize_fuzz() {
    for _ in 0..10000 {
        let input = rand_bytes(100);
        let serialized = serialize_to_vec(&input);
        // Add some junk on the end to make sure no more is consumed than
        // should be.
        let serialized_plus_junk =
            [serialized.as_slice(), &[32], rand_bytes(20).as_slice()].concat();

        let (result, consumed) =
            deserialize_json_string_if_needed(&serialized_plus_junk).unwrap();
        if input != result {
            println!("input = {:?}", input);
            println!("serialized = {:?}", serialized);
            println!("serialized_plus_junk = {:?}", serialized_plus_junk);
            println!("result = {:?}", result);
            println!("consumed = {}", consumed);
            assert!(false);
        }
        assert_eq!(input, result);
        assert_eq!(consumed, serialized.len());
    }
}

#[test]
fn json_fixed_forms() {
    // A bare value passes through unchanged.
    assert_eq!(serialize_to_vec(b"plain!"), b"plain!".to_vec());
    // Spaces, quotes and control bytes force the quoted form.
    assert_eq!(serialize_to_vec(b"a b"), b"\"a b\"".to_vec());
    assert_eq!(serialize_to_vec(b"q\"q"), b"\"q\\\"q\"".to_vec());
    assert_eq!(serialize_to_vec(b"\n"), b"\"\\n\"".to_vec());
    assert_eq!(serialize_to_vec(&[1u8]), b"\"\\u0001\"".to_vec());
    assert_eq!(serialize_to_vec(b""), b"\"\"".to_vec());
}
